//! The write of a content item and its tags as one unit of work: which
//! statement to run next, given what the store answered to the last one.
//! The caller runs each action against the store and hands back the answer.

use vstd::prelude::*;
use crate::database::content_statements::{
    content_keyed, delete_tags_statement, insert_tags_statement, select_tags_statement,
    ContentWritePlan, WritePlanModel, DELETE_TAGS, INSERT_TAGS, SELECT_TAGS,
};
use crate::database::contents_repository::{row_tags, try_new_content, ContentRow, TagRow};
use crate::database::json::{decoded_fields, json_model, tags_view};
use crate::database::statement::{BindModel, Statement, StatementModel};
use crate::error::{DecodeError, RepositoryError, StoreFailure};
use crate::ident::{optional_ids_view, EntityId};
use crate::model::content::Content;
use crate::model::field::fields_view;
use crate::model::field_meta::FieldType;

verus! {

/// What the store answered to an action.
#[derive(Debug)]
pub enum StoreEvent {
    /// The action was carried out and returns nothing.
    Done,
    /// The statement returned this row.
    Row(ContentRow),
    /// The statement returned these rows.
    Tags(Vec<TagRow>),
    /// The statement should have returned a row and returned none.
    NoRow,
    /// The store failed the action.
    Failed(StoreFailure),
}

/// What is to be done next.
#[derive(Debug)]
pub enum StoreAction {
    /// Open a transaction.
    Begin,
    /// Run the statement in the transaction and read the one row it
    /// returns.
    WriteRow(Statement),
    /// Run the statement in the transaction; it takes the tags off the
    /// item.
    DeleteTags(Statement),
    /// Run the statement in the transaction; it puts the new tags on the
    /// item.
    InsertTags(Statement),
    /// Run the statement in the transaction and read the rows it returns.
    ReadTags(Statement),
    /// Commit the transaction.
    Commit,
    /// Roll the transaction back.
    Rollback,
    /// Nothing more: this is the outcome of the write.
    Finish(Result<Content, RepositoryError>),
}

/// How far a write has come: the action whose answer is awaited.
#[derive(Debug, Clone, Copy, PartialEq, Eq, Structural)]
pub enum Stage {
    Begin,
    WriteRow,
    DeleteTags,
    InsertTags,
    ReadTags,
    Commit,
    Rollback,
    Finished,
}

/// An answer of the store without what it carries.
#[derive(Debug, Clone, Copy, PartialEq, Eq, Structural)]
pub enum EventKind {
    Done,
    Row,
    Tags,
    NoRow,
    Failed,
}

/// An action without what it carries; of the outcome, whether it is a
/// content item.
#[derive(Debug, Clone, Copy, PartialEq, Eq, Structural)]
pub enum ActionKind {
    Begin,
    WriteRow,
    DeleteTags,
    InsertTags,
    ReadTags,
    Commit,
    Rollback,
    Finish(bool),
}

impl StoreEvent {
    /// The answer without what it carries.
    pub open spec fn kind(self) -> EventKind {
        match self {
            StoreEvent::Done => EventKind::Done,
            StoreEvent::Row(_) => EventKind::Row,
            StoreEvent::Tags(_) => EventKind::Tags,
            StoreEvent::NoRow => EventKind::NoRow,
            StoreEvent::Failed(_) => EventKind::Failed,
        }
    }

    /// The error that stands for the answer where it is not the one that
    /// was awaited: no row is `NotFound`, a failure of the store is that
    /// failure, any other answer is a failure of an unknown kind.
    pub open spec fn as_failure(self) -> RepositoryError {
        match self {
            StoreEvent::NoRow => RepositoryError::NotFound,
            StoreEvent::Failed(failure) => RepositoryError::Store(failure),
            _ => RepositoryError::Store(StoreFailure::Other),
        }
    }

    /// The error that stands for an answer that was not awaited.
    pub fn failure(&self) -> (r: RepositoryError)
        ensures
            r == self.as_failure(),
    {
        match self {
            StoreEvent::NoRow => RepositoryError::NotFound,
            StoreEvent::Failed(failure) => RepositoryError::Store(*failure),
            _ => RepositoryError::Store(StoreFailure::Other),
        }
    }
}

/// The stage that follows `stage` on an answer of the kind `event`, and
/// the action taken. `replaces_tags` tells whether the write names new
/// tags, `assembles` whether the row and its tags make a content item.
///
/// Every step must succeed for the commit to be reached. From the moment
/// the transaction is open, any other answer leads to a rollback.
pub open spec fn next(stage: Stage, event: EventKind, replaces_tags: bool, assembles: bool) -> (
    Stage,
    ActionKind,
) {
    match stage {
        Stage::Begin => if event == EventKind::Done {
            (Stage::WriteRow, ActionKind::WriteRow)
        } else {
            (Stage::Finished, ActionKind::Finish(false))
        },
        Stage::WriteRow => if event == EventKind::Row {
            if replaces_tags {
                (Stage::DeleteTags, ActionKind::DeleteTags)
            } else {
                (Stage::ReadTags, ActionKind::ReadTags)
            }
        } else {
            (Stage::Rollback, ActionKind::Rollback)
        },
        Stage::DeleteTags => if event == EventKind::Done {
            (Stage::InsertTags, ActionKind::InsertTags)
        } else {
            (Stage::Rollback, ActionKind::Rollback)
        },
        Stage::InsertTags => if event == EventKind::Done {
            (Stage::ReadTags, ActionKind::ReadTags)
        } else {
            (Stage::Rollback, ActionKind::Rollback)
        },
        Stage::ReadTags => if event == EventKind::Tags && assembles {
            (Stage::Commit, ActionKind::Commit)
        } else {
            (Stage::Rollback, ActionKind::Rollback)
        },
        Stage::Commit => if event == EventKind::Done {
            (Stage::Finished, ActionKind::Finish(true))
        } else {
            (Stage::Finished, ActionKind::Finish(false))
        },
        Stage::Rollback => (Stage::Finished, ActionKind::Finish(false)),
        Stage::Finished => (Stage::Finished, ActionKind::Finish(false)),
    }
}

impl StoreAction {
    /// The action without what it carries.
    pub open spec fn kind(self) -> ActionKind {
        match self {
            StoreAction::Begin => ActionKind::Begin,
            StoreAction::WriteRow(_) => ActionKind::WriteRow,
            StoreAction::DeleteTags(_) => ActionKind::DeleteTags,
            StoreAction::InsertTags(_) => ActionKind::InsertTags,
            StoreAction::ReadTags(_) => ActionKind::ReadTags,
            StoreAction::Commit => ActionKind::Commit,
            StoreAction::Rollback => ActionKind::Rollback,
            StoreAction::Finish(outcome) => ActionKind::Finish(outcome is Ok),
        }
    }
}

/// A content write under way.
pub struct ContentWrite {
    stage: Stage,
    content_id: EntityId,
    row_statement: Option<Statement>,
    new_tags: Option<Vec<EntityId>>,
    row: Option<ContentRow>,
    content: Option<Content>,
    failure: Option<RepositoryError>,
    plan: Ghost<WritePlanModel>,
}

impl ContentWrite {
    #[verifier::type_invariant]
    spec fn consistent(self) -> bool {
        &&& self.content_id == self.plan@.content_id
        &&& self.stage == Stage::Begin ==> self.row_statement is Some && self.row_statement->Some_0@
            == self.plan@.row
        &&& (self.stage == Stage::Begin || self.stage == Stage::WriteRow || self.stage
            == Stage::DeleteTags) ==> optional_ids_view(self.new_tags) == self.plan@.tags
        &&& (self.stage == Stage::DeleteTags || self.stage == Stage::InsertTags) ==> self.plan@.tags
            is Some
        &&& (self.stage == Stage::DeleteTags || self.stage == Stage::InsertTags || self.stage
            == Stage::ReadTags) ==> self.row is Some
        &&& self.stage == Stage::Commit ==> self.content is Some
        &&& self.stage == Stage::Rollback ==> self.failure is Some
    }

    /// The action whose answer is awaited.
    pub closed spec fn stage(self) -> Stage {
        self.stage
    }

    /// What the write was planned as.
    pub closed spec fn plan(self) -> WritePlanModel {
        self.plan@
    }

    /// The row that the store returned for the write, once it has.
    pub closed spec fn row(self) -> Option<ContentRow> {
        self.row
    }

    /// The content item that the row and its tags make, once they have.
    pub closed spec fn content(self) -> Option<Content> {
        self.content
    }

    /// Why the write is rolled back, once it is.
    pub closed spec fn failure(self) -> Option<RepositoryError> {
        self.failure
    }

    /// Whether the rows of tags in `event`, with the row that the write
    /// returned, make a content item.
    pub open spec fn assembles(self, event: StoreEvent) -> bool {
        event is Tags && self.row() is Some && decoded_fields(
            json_model(self.row()->Some_0.fields),
        ) is Ok
    }

    /// Begins the write that `plan` describes: the first action is to open
    /// a transaction.
    pub fn start(plan: ContentWritePlan) -> (r: (ContentWrite, StoreAction))
        ensures
            r.0.stage() == Stage::Begin,
            r.0.plan() == plan@,
            r.0.row() is None,
            r.0.content() is None,
            r.0.failure() is None,
            r.1 is Begin,
    {
        let ghost model = plan@;
        let ContentWritePlan { content_id, row, tags } = plan;
        let write = ContentWrite {
            stage: Stage::Begin,
            content_id,
            row_statement: Some(row),
            new_tags: tags,
            row: None,
            content: None,
            failure: None,
            plan: Ghost(model),
        };
        (write, StoreAction::Begin)
    }

    /// Whether the write has come to its end.
    pub fn is_finished(&self) -> (r: bool)
        ensures
            r == (self.stage() == Stage::Finished),
    {
        self.stage == Stage::Finished
    }

    /// Takes the answer of the store to the last action and tells what to
    /// do next.
    ///
    /// The stage and the kind of action follow `next`. A statement that is
    /// handed out is the one of the plan, or the one for the tags of the
    /// plan's content item. The outcome is the content item that the row
    /// and its tags made, or the first thing that went wrong.
    pub fn step(self, event: StoreEvent) -> (r: (ContentWrite, StoreAction))
        ensures
            (r.0.stage(), r.1.kind()) == next(
                self.stage(),
                event.kind(),
                self.plan().tags is Some,
                self.assembles(event),
            ),
            r.0.plan() == self.plan(),
            match r.1 {
                StoreAction::WriteRow(statement) => statement@ == self.plan().row,
                StoreAction::DeleteTags(statement) => statement@ == content_keyed(
                    DELETE_TAGS@,
                    self.plan().content_id,
                ),
                StoreAction::InsertTags(statement) => self.plan().tags is Some && statement@
                    == (StatementModel {
                    sql: INSERT_TAGS@,
                    binds: seq![
                        BindModel::Id(self.plan().content_id),
                        BindModel::Ids(self.plan().tags->Some_0),
                    ],
                }),
                StoreAction::ReadTags(statement) => statement@ == content_keyed(
                    SELECT_TAGS@,
                    self.plan().content_id,
                ),
                StoreAction::Finish(Ok(content)) => self.content() == Some(content),
                StoreAction::Finish(Err(e)) => e == (match self.stage() {
                    Stage::Rollback => self.failure()->Some_0,
                    Stage::Finished => RepositoryError::Store(StoreFailure::Other),
                    _ => event.as_failure(),
                }),
                _ => true,
            },
            r.0.row() == (match event {
                StoreEvent::Row(row) if self.stage() == Stage::WriteRow => Some(row),
                _ => self.row(),
            }),
            r.0.stage() == Stage::Commit ==> event is Tags && r.0.content() is Some && {
                let content = r.0.content()->Some_0;
                let row = self.row()->Some_0;
                &&& row.shown_by(content)
                &&& Ok::<Seq<(FieldType, Seq<char>)>, DecodeError>(fields_view(content.fields@))
                    == decoded_fields(json_model(row.fields))
                &&& tags_view(content.tags@) == row_tags(event->Tags_0@)
            },
            r.0.stage() != Stage::Commit && r.0.stage() != Stage::Finished ==> r.0.content()
                == self.content(),
            r.0.stage() == Stage::Rollback ==> r.0.failure() == Some(
                if self.stage() == Stage::ReadTags && event is Tags {
                    RepositoryError::Decode(
                        decoded_fields(json_model(self.row()->Some_0.fields))->Err_0,
                    )
                } else {
                    event.as_failure()
                },
            ),
    {
        proof {
            use_type_invariant(&self);
        }
        let ContentWrite { stage, content_id, row_statement, new_tags, row, content, failure, plan } =
            self;
        match stage {
            Stage::Begin => match event {
                StoreEvent::Done => {
                    let statement = row_statement.unwrap();
                    (
                        ContentWrite {
                            stage: Stage::WriteRow,
                            content_id,
                            row_statement: None,
                            new_tags,
                            row,
                            content,
                            failure,
                            plan,
                        },
                        StoreAction::WriteRow(statement),
                    )
                },
                other => {
                    let e = other.failure();
                    (
                        ContentWrite {
                            stage: Stage::Finished,
                            content_id,
                            row_statement: None,
                            new_tags,
                            row,
                            content,
                            failure,
                            plan,
                        },
                        StoreAction::Finish(Err(e)),
                    )
                },
            },
            Stage::WriteRow => match event {
                StoreEvent::Row(written) => {
                    if new_tags.is_some() {
                        (
                            ContentWrite {
                                stage: Stage::DeleteTags,
                                content_id,
                                row_statement,
                                new_tags,
                                row: Some(written),
                                content,
                                failure,
                                plan,
                            },
                            StoreAction::DeleteTags(delete_tags_statement(content_id)),
                        )
                    } else {
                        (
                            ContentWrite {
                                stage: Stage::ReadTags,
                                content_id,
                                row_statement,
                                new_tags,
                                row: Some(written),
                                content,
                                failure,
                                plan,
                            },
                            StoreAction::ReadTags(select_tags_statement(content_id)),
                        )
                    }
                },
                other => {
                    let e = other.failure();
                    (
                        ContentWrite {
                            stage: Stage::Rollback,
                            content_id,
                            row_statement,
                            new_tags,
                            row,
                            content,
                            failure: Some(e),
                            plan,
                        },
                        StoreAction::Rollback,
                    )
                },
            },
            Stage::DeleteTags => match event {
                StoreEvent::Done => {
                    let tags = new_tags.unwrap();
                    (
                        ContentWrite {
                            stage: Stage::InsertTags,
                            content_id,
                            row_statement,
                            new_tags: None,
                            row,
                            content,
                            failure,
                            plan,
                        },
                        StoreAction::InsertTags(insert_tags_statement(content_id, tags)),
                    )
                },
                other => {
                    let e = other.failure();
                    (
                        ContentWrite {
                            stage: Stage::Rollback,
                            content_id,
                            row_statement,
                            new_tags,
                            row,
                            content,
                            failure: Some(e),
                            plan,
                        },
                        StoreAction::Rollback,
                    )
                },
            },
            Stage::InsertTags => match event {
                StoreEvent::Done => (
                    ContentWrite {
                        stage: Stage::ReadTags,
                        content_id,
                        row_statement,
                        new_tags,
                        row,
                        content,
                        failure,
                        plan,
                    },
                    StoreAction::ReadTags(select_tags_statement(content_id)),
                ),
                other => {
                    let e = other.failure();
                    (
                        ContentWrite {
                            stage: Stage::Rollback,
                            content_id,
                            row_statement,
                            new_tags,
                            row,
                            content,
                            failure: Some(e),
                            plan,
                        },
                        StoreAction::Rollback,
                    )
                },
            },
            Stage::ReadTags => match event {
                StoreEvent::Tags(tag_rows) => {
                    let written = row.unwrap();
                    match try_new_content(&written, &tag_rows) {
                        Ok(assembled) => (
                            ContentWrite {
                                stage: Stage::Commit,
                                content_id,
                                row_statement,
                                new_tags,
                                row: Some(written),
                                content: Some(assembled),
                                failure,
                                plan,
                            },
                            StoreAction::Commit,
                        ),
                        Err(e) => (
                            ContentWrite {
                                stage: Stage::Rollback,
                                content_id,
                                row_statement,
                                new_tags,
                                row: Some(written),
                                content,
                                failure: Some(e),
                                plan,
                            },
                            StoreAction::Rollback,
                        ),
                    }
                },
                other => {
                    let e = other.failure();
                    (
                        ContentWrite {
                            stage: Stage::Rollback,
                            content_id,
                            row_statement,
                            new_tags,
                            row,
                            content,
                            failure: Some(e),
                            plan,
                        },
                        StoreAction::Rollback,
                    )
                },
            },
            Stage::Commit => match event {
                StoreEvent::Done => {
                    let assembled = content.unwrap();
                    (
                        ContentWrite {
                            stage: Stage::Finished,
                            content_id,
                            row_statement,
                            new_tags,
                            row,
                            content: None,
                            failure,
                            plan,
                        },
                        StoreAction::Finish(Ok(assembled)),
                    )
                },
                other => {
                    let e = other.failure();
                    (
                        ContentWrite {
                            stage: Stage::Finished,
                            content_id,
                            row_statement,
                            new_tags,
                            row,
                            content,
                            failure,
                            plan,
                        },
                        StoreAction::Finish(Err(e)),
                    )
                },
            },
            Stage::Rollback => {
                let e = failure.unwrap();
                (
                    ContentWrite {
                        stage: Stage::Finished,
                        content_id,
                        row_statement,
                        new_tags,
                        row,
                        content,
                        failure,
                        plan,
                    },
                    StoreAction::Finish(Err(e)),
                )
            },
            Stage::Finished => (
                ContentWrite {
                    stage: Stage::Finished,
                    content_id,
                    row_statement,
                    new_tags,
                    row,
                    content,
                    failure,
                    plan,
                },
                StoreAction::Finish(Err(RepositoryError::Store(StoreFailure::Other))),
            ),
        }
    }
}

/// The actions taken, one after each of `events`, by a write that stands
/// at `stage`.
pub open spec fn actions_from(
    stage: Stage,
    events: Seq<EventKind>,
    replaces_tags: bool,
    assembles: bool,
) -> Seq<ActionKind>
    decreases events.len(),
{
    if events.len() == 0 {
        Seq::empty()
    } else {
        let (after, action) = next(stage, events[0], replaces_tags, assembles);
        seq![action] + actions_from(after, events.drop_first(), replaces_tags, assembles)
    }
}

/// The answers that take a write from its beginning to its commit.
pub open spec fn answers_of_success(replaces_tags: bool) -> Seq<EventKind> {
    if replaces_tags {
        seq![EventKind::Done, EventKind::Row, EventKind::Done, EventKind::Done, EventKind::Tags]
    } else {
        seq![EventKind::Done, EventKind::Row, EventKind::Tags]
    }
}

/// Whether `prefix` is how `events` begin.
pub open spec fn begins_with(events: Seq<EventKind>, prefix: Seq<EventKind>) -> bool {
    prefix.len() <= events.len() && events.take(prefix.len() as int) == prefix
}

/// From the moment the transaction is open until the commit is asked for,
/// an answer that is not the awaited one is followed by a rollback, and
/// the rollback by an outcome that is no content item. A failing insertion
/// of the new tags is one such answer.
pub proof fn failure_is_rolled_back(
    stage: Stage,
    event: EventKind,
    after_rollback: EventKind,
    replaces_tags: bool,
    assembles: bool,
)
    requires
        stage == Stage::WriteRow || stage == Stage::DeleteTags || stage == Stage::InsertTags
            || stage == Stage::ReadTags,
        event == EventKind::Failed || event == EventKind::NoRow,
    ensures
        next(stage, event, replaces_tags, assembles) == (Stage::Rollback, ActionKind::Rollback),
        next(Stage::Rollback, after_rollback, replaces_tags, assembles) == (
            Stage::Finished,
            ActionKind::Finish(false),
        ),
{
}

/// Whatever the store answers, a write asks for the commit only after
/// every step before it has succeeded: the transaction was opened, the row
/// was written, the tags were replaced where the write names tags, and the
/// row with its tags made a content item.
pub proof fn commit_needs_every_step(events: Seq<EventKind>, replaces_tags: bool, assembles: bool)
    requires
        actions_from(Stage::Begin, events, replaces_tags, assembles).contains(ActionKind::Commit),
    ensures
        assembles,
        begins_with(events, answers_of_success(replaces_tags)),
{
    lemma_commit_from(Stage::Begin, events, replaces_tags, assembles);
    assert(answers_left(Stage::Begin, replaces_tags) =~= answers_of_success(replaces_tags));
}

/// The answers that take a write from `stage` to its commit.
pub open spec fn answers_left(stage: Stage, replaces_tags: bool) -> Seq<EventKind> {
    match stage {
        Stage::Begin => seq![EventKind::Done] + answers_left_after_begin(replaces_tags),
        Stage::WriteRow => answers_left_after_begin(replaces_tags),
        Stage::DeleteTags => seq![EventKind::Done, EventKind::Done, EventKind::Tags],
        Stage::InsertTags => seq![EventKind::Done, EventKind::Tags],
        Stage::ReadTags => seq![EventKind::Tags],
        _ => Seq::empty(),
    }
}

/// The answers that take a write from the writing of its row to its
/// commit.
pub open spec fn answers_left_after_begin(replaces_tags: bool) -> Seq<EventKind> {
    if replaces_tags {
        seq![EventKind::Row, EventKind::Done, EventKind::Done, EventKind::Tags]
    } else {
        seq![EventKind::Row, EventKind::Tags]
    }
}

/// How many steps a write at `stage` is away from its end at most.
pub open spec fn steps_left(stage: Stage) -> nat {
    match stage {
        Stage::Begin => 7,
        Stage::WriteRow => 6,
        Stage::DeleteTags => 5,
        Stage::InsertTags => 4,
        Stage::ReadTags => 3,
        Stage::Commit => 1,
        Stage::Rollback => 1,
        Stage::Finished => 0,
    }
}

/// A write that stands at `stage` and asks for the commit later on has
/// received, until then, exactly the answers of success.
proof fn lemma_commit_from(
    stage: Stage,
    events: Seq<EventKind>,
    replaces_tags: bool,
    assembles: bool,
)
    requires
        actions_from(stage, events, replaces_tags, assembles).contains(ActionKind::Commit),
        stage == Stage::DeleteTags || stage == Stage::InsertTags ==> replaces_tags,
    ensures
        assembles,
        stage != Stage::Commit && stage != Stage::Rollback && stage != Stage::Finished,
        begins_with(events, answers_left(stage, replaces_tags)),
    decreases steps_left(stage),
{
    let actions = actions_from(stage, events, replaces_tags, assembles);
    let k = choose|k: int| 0 <= k < actions.len() && actions[k] == ActionKind::Commit;
    assert(events.len() > 0);
    let (after, action) = next(stage, events[0], replaces_tags, assembles);
    let rest = events.drop_first();
    let later = actions_from(after, rest, replaces_tags, assembles);
    assert(actions == seq![action] + later);
    if stage == Stage::Finished || stage == Stage::Rollback || stage == Stage::Commit {
        lemma_no_commit_at_the_end(stage, events, replaces_tags, assembles);
        assert(false);
    } else if action == ActionKind::Commit {
        assert(stage == Stage::ReadTags);
        assert(events.take(1) =~= seq![EventKind::Tags]);
    } else {
        assert(k > 0);
        assert(later[k - 1] == ActionKind::Commit);
        if after == Stage::Rollback || after == Stage::Finished {
            lemma_no_commit_at_the_end(after, rest, replaces_tags, assembles);
            assert(false);
        }
        lemma_commit_from(after, rest, replaces_tags, assembles);
        let left = answers_left(after, replaces_tags);
        let all = answers_left(stage, replaces_tags);
        assert(all =~= seq![events[0]] + left);
        assert(rest.take(left.len() as int) == left);
        assert forall|i: int| 0 <= i < all.len() implies events.take(all.len() as int)[i]
            == all[i] by {
            if i > 0 {
                assert(rest.take(left.len() as int)[i - 1] == left[i - 1]);
            }
        }
        assert(events.take(all.len() as int) =~= all);
    }
}

/// Once the commit or the rollback was asked for, or the write has ended,
/// the commit is not asked for again.
proof fn lemma_no_commit_at_the_end(
    stage: Stage,
    events: Seq<EventKind>,
    replaces_tags: bool,
    assembles: bool,
)
    requires
        stage == Stage::Commit || stage == Stage::Rollback || stage == Stage::Finished,
    ensures
        !actions_from(stage, events, replaces_tags, assembles).contains(ActionKind::Commit),
    decreases events.len(),
{
    let actions = actions_from(stage, events, replaces_tags, assembles);
    if events.len() > 0 {
        let (after, action) = next(stage, events[0], replaces_tags, assembles);
        let later = actions_from(after, events.drop_first(), replaces_tags, assembles);
        lemma_no_commit_at_the_end(after, events.drop_first(), replaces_tags, assembles);
        assert(actions == seq![action] + later);
        assert forall|k: int| 0 <= k < actions.len() implies actions[k] != ActionKind::Commit by {
            if k > 0 {
                assert(actions[k] == later[k - 1]);
                assert(later.contains(later[k - 1]));
            }
        }
    }
}

} // verus!
