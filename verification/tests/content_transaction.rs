use headless_cms::database::content_statements::{create_plan, update};
use headless_cms::database::content_transaction::{ContentWrite, StoreAction, StoreEvent};
use headless_cms::database::contents_repository::{ContentRow, ContentRowStatus, TagRow};
use headless_cms::database::json::encode_fields;
use headless_cms::error::{DecodeError, RepositoryError, StoreFailure};
use headless_cms::ident::EntityId;
use headless_cms::model::content::{Content, ContentStatus, Timestamp};
use headless_cms::model::field::Field;
use headless_cms::model::field_meta::FieldType;
use headless_cms::repository::content::{CreateContent, CreateContentIds, UpdateContent};

fn id(n: u128) -> EntityId {
    EntityId { value: 0x0192f3a0_0000_7000_8000_000000000000 + n }
}

fn text(n: u128) -> String {
    format!("0192f3a0-0000-7000-8000-{:012x}", n)
}

fn row(fields: serde_json::Value) -> ContentRow {
    ContentRow {
        id: id(1),
        title: "changed".into(),
        fields,
        status: ContentRowStatus::Reserved,
        published_at: None,
        created_by_id: id(2),
        created_by_name: "creator".into(),
        updated_by_id: id(3),
        updated_by_name: "updater".into(),
        created_at: Timestamp { micros: 10 },
        updated_at: Timestamp { micros: 20 },
        category_id: id(4),
        category_name: "news".into(),
    }
}

fn good_row() -> ContentRow {
    row(encode_fields(&vec![Field::new(FieldType::ShortText, "title".into())]))
}

fn name(action: &StoreAction) -> String {
    match action {
        StoreAction::Begin => "begin".into(),
        StoreAction::WriteRow(s) => format!("write-row/{}", s.binds.len()),
        StoreAction::DeleteTags(s) => format!("delete-tags/{}", s.binds.len()),
        StoreAction::InsertTags(s) => format!("insert-tags/{}", s.binds.len()),
        StoreAction::ReadTags(s) => format!("read-tags/{}", s.binds.len()),
        StoreAction::Commit => "commit".into(),
        StoreAction::Rollback => "rollback".into(),
        StoreAction::Finish(Ok(_)) => "finish-ok".into(),
        StoreAction::Finish(Err(e)) => format!("finish-err/{:?}", e),
    }
}

/// Plays the answers of a store to a write and tells the actions it
/// takes, and its outcome.
fn play(
    write: (ContentWrite, StoreAction),
    answers: Vec<StoreEvent>,
) -> (Vec<String>, Option<Result<Content, RepositoryError>>) {
    let (mut write, first) = write;
    let mut actions = vec![name(&first)];
    let mut outcome = None;
    for answer in answers {
        let (next, action) = write.step(answer);
        write = next;
        actions.push(name(&action));
        if let StoreAction::Finish(result) = action {
            assert!(write.is_finished());
            outcome = Some(result);
            break;
        }
        assert!(!write.is_finished());
    }
    (actions, outcome)
}

fn update_with_tags() -> (ContentWrite, StoreAction) {
    let command = UpdateContent::new(
        text(1),
        Some("changed".into()),
        None,
        None,
        Some(vec![text(0x22)]),
        Some(ContentStatus::Reserved),
        text(3),
    );
    ContentWrite::start(update(command).unwrap())
}

fn update_without_tags() -> (ContentWrite, StoreAction) {
    let command =
        UpdateContent::new(text(1), Some("changed".into()), None, None, None, None, text(3));
    ContentWrite::start(update(command).unwrap())
}

#[test]
fn update_with_tags_runs_every_step_and_commits() {
    let (actions, outcome) = play(
        update_with_tags(),
        vec![
            StoreEvent::Done,
            StoreEvent::Row(good_row()),
            StoreEvent::Done,
            StoreEvent::Done,
            StoreEvent::Tags(vec![TagRow { id: id(0x22), name: "t2".into() }]),
            StoreEvent::Done,
        ],
    );
    assert_eq!(
        actions,
        vec![
            "begin",
            "write-row/4",
            "delete-tags/1",
            "insert-tags/2",
            "read-tags/1",
            "commit",
            "finish-ok"
        ]
    );
    let content = outcome.unwrap().unwrap();
    assert_eq!(content.id, text(1));
    assert_eq!(content.title, "changed");
    assert_eq!(content.status, ContentStatus::Reserved);
    assert_eq!(content.tags.len(), 1);
    assert_eq!(content.tags[0].id, text(0x22));
    assert_eq!(content.tags[0].name, "t2");
    assert_eq!(content.fields[0].value, "title");
}

#[test]
fn update_without_tags_leaves_the_tags_and_reads_them() {
    let (actions, outcome) = play(
        update_without_tags(),
        vec![
            StoreEvent::Done,
            StoreEvent::Row(good_row()),
            StoreEvent::Tags(vec![
                TagRow { id: id(0x21), name: "t1".into() },
                TagRow { id: id(0x22), name: "t2".into() },
            ]),
            StoreEvent::Done,
        ],
    );
    assert_eq!(actions, vec!["begin", "write-row/3", "read-tags/1", "commit", "finish-ok"]);
    let content = outcome.unwrap().unwrap();
    assert_eq!(content.tags.len(), 2);
    assert_eq!(content.tags[0].name, "t1");
    assert_eq!(content.tags[1].name, "t2");
}

#[test]
fn create_puts_the_tags_on_in_the_same_unit_of_work() {
    let command = CreateContent::new(
        "title".into(),
        text(4),
        vec![Field::new(FieldType::ShortText, "title".into())],
        vec![text(0x21), text(0x22)],
        ContentStatus::Draft,
        text(2),
        text(3),
    );
    let plan = create_plan(
        id(1),
        command,
        CreateContentIds {
            category: Some(id(4)),
            created_by: Some(id(2)),
            updated_by: Some(id(3)),
            tags: Some(vec![id(0x21), id(0x22)]),
        },
    )
    .unwrap();
    let (actions, outcome) = play(
        ContentWrite::start(plan),
        vec![
            StoreEvent::Done,
            StoreEvent::Row(good_row()),
            StoreEvent::Done,
            StoreEvent::Done,
            StoreEvent::Tags(vec![
                TagRow { id: id(0x21), name: "t1".into() },
                TagRow { id: id(0x22), name: "t2".into() },
            ]),
            StoreEvent::Done,
        ],
    );
    assert_eq!(
        actions,
        vec![
            "begin",
            "write-row/7",
            "delete-tags/1",
            "insert-tags/2",
            "read-tags/1",
            "commit",
            "finish-ok"
        ]
    );
    assert_eq!(outcome.unwrap().unwrap().tags.len(), 2);
}

#[test]
fn failing_tag_insert_rolls_the_whole_update_back() {
    let (actions, outcome) = play(
        update_with_tags(),
        vec![
            StoreEvent::Done,
            StoreEvent::Row(good_row()),
            StoreEvent::Done,
            StoreEvent::Failed(StoreFailure::Constraint),
            StoreEvent::Done,
        ],
    );
    assert_eq!(
        actions,
        vec![
            "begin",
            "write-row/4",
            "delete-tags/1",
            "insert-tags/2",
            "rollback",
            "finish-err/Store(Constraint)"
        ]
    );
    assert_eq!(outcome.unwrap().unwrap_err(), RepositoryError::Store(StoreFailure::Constraint));
}

#[test]
fn missing_row_is_not_found_and_rolled_back() {
    let (actions, outcome) =
        play(update_with_tags(), vec![StoreEvent::Done, StoreEvent::NoRow, StoreEvent::Done]);
    assert_eq!(actions, vec!["begin", "write-row/4", "rollback", "finish-err/NotFound"]);
    assert_eq!(outcome.unwrap().unwrap_err(), RepositoryError::NotFound);
}

#[test]
fn failure_at_each_step_rolls_back() {
    let failed = || StoreEvent::Failed(StoreFailure::Connection);
    let (actions, _) = play(update_with_tags(), vec![StoreEvent::Done, failed(), StoreEvent::Done]);
    assert_eq!(actions[2..], ["rollback", "finish-err/Store(Connection)"]);
    let (actions, _) = play(
        update_with_tags(),
        vec![StoreEvent::Done, StoreEvent::Row(good_row()), failed(), StoreEvent::Done],
    );
    assert_eq!(actions[3..], ["rollback", "finish-err/Store(Connection)"]);
    let (actions, _) = play(
        update_with_tags(),
        vec![
            StoreEvent::Done,
            StoreEvent::Row(good_row()),
            StoreEvent::Done,
            StoreEvent::Done,
            failed(),
            StoreEvent::Done,
        ],
    );
    assert_eq!(actions[5..], ["rollback", "finish-err/Store(Connection)"]);
    assert!(!actions.contains(&"commit".to_string()));
}

#[test]
fn failure_to_begin_ends_without_a_rollback() {
    let (actions, outcome) =
        play(update_with_tags(), vec![StoreEvent::Failed(StoreFailure::Connection)]);
    assert_eq!(actions, vec!["begin", "finish-err/Store(Connection)"]);
    assert_eq!(outcome.unwrap().unwrap_err(), RepositoryError::Store(StoreFailure::Connection));
}

#[test]
fn failure_to_commit_is_the_outcome() {
    let (actions, outcome) = play(
        update_without_tags(),
        vec![
            StoreEvent::Done,
            StoreEvent::Row(good_row()),
            StoreEvent::Tags(vec![]),
            StoreEvent::Failed(StoreFailure::Conflict),
        ],
    );
    assert_eq!(
        actions,
        vec!["begin", "write-row/3", "read-tags/1", "commit", "finish-err/Store(Conflict)"]
    );
    assert_eq!(outcome.unwrap().unwrap_err(), RepositoryError::Store(StoreFailure::Conflict));
}

#[test]
fn stored_fields_that_do_not_decode_roll_back() {
    let bad = row(serde_json::from_str(r#"{"body":"Hello World"}"#).unwrap());
    let (actions, outcome) = play(
        update_without_tags(),
        vec![StoreEvent::Done, StoreEvent::Row(bad), StoreEvent::Tags(vec![]), StoreEvent::Done],
    );
    assert_eq!(
        actions,
        vec!["begin", "write-row/3", "read-tags/1", "rollback", "finish-err/Decode(NotAnArray)"]
    );
    assert_eq!(outcome.unwrap().unwrap_err(), RepositoryError::Decode(DecodeError::NotAnArray));
}

#[test]
fn an_answer_that_was_not_awaited_counts_as_a_failure() {
    let (actions, _) =
        play(update_with_tags(), vec![StoreEvent::Done, StoreEvent::Done, StoreEvent::Done]);
    assert_eq!(actions, vec!["begin", "write-row/4", "rollback", "finish-err/Store(Other)"]);
    let (actions, _) = play(update_with_tags(), vec![StoreEvent::Row(good_row())]);
    assert_eq!(actions, vec!["begin", "finish-err/Store(Other)"]);
}

#[test]
fn a_finished_write_stays_finished() {
    let (write, _) = update_with_tags();
    let (write, _) = write.step(StoreEvent::Failed(StoreFailure::Other));
    assert!(write.is_finished());
    let (write, action) = write.step(StoreEvent::Done);
    assert!(write.is_finished());
    assert_eq!(name(&action), "finish-err/Store(Other)");
}
