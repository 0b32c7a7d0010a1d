//! What can be asked of the store about tags.

use vstd::prelude::*;
use crate::database::tag_repository::{shows, TagRecord};
use crate::error::{IdField, RepositoryError, ValidationError};
use crate::ident::{ascending, lemma_position, position, rank, EntityId};
use crate::model::tag::Tag;
use crate::repository::page::page;
use crate::text::{replaced, text_or_empty};
use crate::validation::{
    check_name, check_optional_description, check_optional_name, first_of, name_violation,
    optional_description_violation, optional_name_violation, optional_view, DESCRIPTION_MAX,
    NAME_MAX,
};

verus! {

/// A page of tags: at most `limit`, after skipping `offset`.
#[derive(Debug, Clone, Copy)]
pub struct GetTagQuery {
    pub limit: i32,
    pub offset: i32,
}

impl GetTagQuery {
    pub fn new(limit: i32, offset: i32) -> (r: GetTagQuery)
        ensures
            r == (GetTagQuery { limit, offset }),
    {
        GetTagQuery { limit, offset }
    }
}

impl Default for GetTagQuery {
    /// The first hundred.
    fn default() -> (r: GetTagQuery)
        ensures
            r == (GetTagQuery { limit: 100, offset: 0 }),
    {
        GetTagQuery { limit: 100, offset: 0 }
    }
}

/// The fields of a tag to create.
#[derive(Debug, Clone)]
pub struct CreateTag {
    pub name: String,
    pub description: Option<String>,
}

impl CreateTag {
    pub fn new(name: String, description: Option<String>) -> (r: CreateTag)
        ensures
            r == (CreateTag { name, description }),
    {
        CreateTag { name, description }
    }

    /// The first rule of a tag that the fields break.
    pub open spec fn violation(&self) -> Option<ValidationError> {
        first_of(
            name_violation(self.name@, true),
            optional_description_violation(optional_view(self.description)),
        )
    }

    /// Holds the fields against the rules of a tag.
    pub fn validate(&self) -> (r: Option<ValidationError>)
        ensures
            r == self.violation(),
    {
        if let Some(e) = check_name(self.name.as_str(), true) {
            return Some(e);
        }
        check_optional_description(&self.description)
    }
}

/// The changes to make to a tag: an absent field stays as it is stored.
#[derive(Debug, Clone)]
pub struct UpdateTag {
    pub id: String,
    pub name: Option<String>,
    pub description: Option<String>,
}

impl UpdateTag {
    pub fn new(id: String, name: Option<String>, description: Option<String>) -> (r: UpdateTag)
        ensures
            r == (UpdateTag { id, name, description }),
    {
        UpdateTag { id, name, description }
    }

    /// The first rule of a tag that a new value breaks.
    pub open spec fn violation(&self) -> Option<ValidationError> {
        first_of(
            optional_name_violation(optional_view(self.name), true),
            optional_description_violation(optional_view(self.description)),
        )
    }

    /// Holds the new values against the rules of a tag.
    pub fn validate(&self) -> (r: Option<ValidationError>)
        ensures
            r == self.violation(),
    {
        if let Some(e) = check_optional_name(&self.name, true) {
            return Some(e);
        }
        check_optional_description(&self.description)
    }
}

/// The identifiers of tag rows, in order.
pub open spec fn record_ids(rows: Seq<TagRecord>) -> Seq<EntityId> {
    Seq::new(rows.len(), |i: int| rows[i].id)
}

impl CreateTag {
    /// A field that is longer than its bound breaks a rule.
    pub proof fn over_long_is_refused(self)
        ensures
            self.name@.len() > NAME_MAX ==> self.violation() is Some,
            self.description is Some && self.description->Some_0@.len() > DESCRIPTION_MAX
                ==> self.violation() is Some,
    {
    }

    /// The row that is stored for the fields under `id`.
    pub open spec fn record(self, id: EntityId) -> TagRecord {
        TagRecord { id, name: self.name@, description: text_or_empty(self.description) }
    }
}

impl UpdateTag {
    /// A new value that is longer than its bound breaks a rule.
    pub proof fn over_long_is_refused(self)
        ensures
            self.name is Some && self.name->Some_0@.len() > NAME_MAX ==> self.violation() is Some,
            self.description is Some && self.description->Some_0@.len() > DESCRIPTION_MAX
                ==> self.violation() is Some,
    {
    }

    /// Whether the update names no field to change.
    pub open spec fn changes_nothing(self) -> bool {
        self.name is None && self.description is None
    }

    /// The row that the update makes of a stored row: each field that is
    /// present takes the place of the stored one, each absent field leaves
    /// the stored one as it is.
    pub open spec fn applied_to(self, stored: TagRecord) -> TagRecord {
        TagRecord {
            id: stored.id,
            name: replaced(stored.name, self.name),
            description: replaced(stored.description, self.description),
        }
    }

    /// Applying an update a second time changes nothing more.
    pub proof fn applying_twice_is_applying_once(self, stored: TagRecord)
        ensures
            self.applied_to(self.applied_to(stored)) == self.applied_to(stored),
    {
    }
}

/// What a listing may answer, given the rows of the store: a failure of
/// the store, or the tags of the rows that the page shows, in
/// order. A page cannot be asked for with a negative limit or offset.
pub open spec fn listing(
    rows: Seq<TagRecord>,
    query: GetTagQuery,
    answer: Result<Vec<Tag>, RepositoryError>,
) -> bool {
    match answer {
        Ok(tags) => {
            let shown = page(rows, query.limit as int, query.offset as int);
            &&& query.limit >= 0
            &&& query.offset >= 0
            &&& tags@.len() == shown.len()
            &&& forall|i: int| 0 <= i < shown.len() ==> shows(#[trigger] tags@[i], shown[i])
            &&& ascending(record_ids(shown))
        },
        Err(e) => e is Store,
    }
}

/// What a creation may answer and leave behind, given the rows of the
/// store before it. Fields that break a rule are refused before the store
/// is touched. Else the store fails and nothing changes, or a row with the
/// fields is added under an identifier that no row had, and the answer is
/// its tag.
pub open spec fn creation(
    before: Seq<TagRecord>,
    data: CreateTag,
    answer: Result<Tag, RepositoryError>,
    after: Seq<TagRecord>,
) -> bool {
    if data.violation() is Some {
        answer == Err::<Tag, RepositoryError>(
            RepositoryError::Validation(data.violation()->Some_0),
        ) && after == before
    } else {
        match answer {
            Ok(tag) => exists|id: EntityId|
                {
                    &&& !record_ids(before).contains(id)
                    &&& after == before.insert(
                        rank(record_ids(before), id),
                        #[trigger] data.record(id),
                    )
                    &&& shows(tag, data.record(id))
                },
            Err(e) => e is Store && after == before,
        }
    }
}

/// What an update may answer and leave behind, given the rows of the
/// store before it and what was read from the identifier. In this order:
/// a value that breaks a rule, an update that changes nothing, and an
/// identifier that could not be read are refused before the store is
/// touched. Else the store fails and nothing changes, or no row has the
/// identifier and nothing changes, or the row with the identifier becomes
/// what the update makes of it, and the answer is its tag.
pub open spec fn change(
    before: Seq<TagRecord>,
    data: UpdateTag,
    id: Option<EntityId>,
    answer: Result<Tag, RepositoryError>,
    after: Seq<TagRecord>,
) -> bool {
    if data.violation() is Some {
        answer == Err::<Tag, RepositoryError>(
            RepositoryError::Validation(data.violation()->Some_0),
        ) && after == before
    } else if data.changes_nothing() {
        answer == Err::<Tag, RepositoryError>(
            RepositoryError::Validation(ValidationError::NothingToUpdate),
        ) && after == before
    } else if id is None {
        answer == Err::<Tag, RepositoryError>(RepositoryError::InvalidId(IdField::Id))
            && after == before
    } else {
        let place = position(record_ids(before), id->Some_0);
        match answer {
            Ok(tag) => {
                &&& place is Some
                &&& after == before.update(place->Some_0, data.applied_to(before[place->Some_0]))
                &&& shows(tag, data.applied_to(before[place->Some_0]))
            },
            Err(e) => after == before && (e is Store || (e == RepositoryError::NotFound
                && place is None)),
        }
    }
}

/// What a deletion may answer and leave behind, given the rows of the
/// store before it and what was read from the identifier. An identifier
/// that could not be read is refused before the store is touched. Else
/// the store fails and nothing changes, or no row has the identifier and
/// nothing changes, or the row with the identifier is gone and every other
/// row stays where it was.
pub open spec fn removal(
    before: Seq<TagRecord>,
    id: Option<EntityId>,
    answer: Result<(), RepositoryError>,
    after: Seq<TagRecord>,
) -> bool {
    if id is None {
        answer == Err::<(), RepositoryError>(RepositoryError::InvalidId(IdField::Id)) && after
            == before
    } else {
        let place = position(record_ids(before), id->Some_0);
        match answer {
            Ok(_) => place is Some && after == before.remove(place->Some_0),
            Err(e) => after == before && (e is Store || (e == RepositoryError::NotFound
                && place is None)),
        }
    }
}

/// After a tag was deleted, no row has its identifier, so no listing
/// shows it.
pub proof fn deleted_is_gone(
    before: Seq<TagRecord>,
    id: EntityId,
    after: Seq<TagRecord>,
    limit: int,
    offset: int,
)
    requires
        record_ids(before).no_duplicates(),
        removal(before, Some(id), Ok(()), after),
        0 <= limit,
        0 <= offset,
    ensures
        !record_ids(after).contains(id),
        forall|i: int|
            0 <= i < page(after, limit, offset).len() ==> (#[trigger] page(
                after,
                limit,
                offset,
            )[i]).id != id,
{
    let ids = record_ids(before);
    lemma_position(ids, id);
    let place = position(ids, id)->Some_0;
    assert forall|j: int| 0 <= j < after.len() implies (#[trigger] after[j]).id != id by {
        if j < place {
            assert(after[j] == before[j]);
            assert(ids[j] == before[j].id);
        } else {
            assert(after[j] == before[j + 1]);
            assert(ids[j + 1] == before[j + 1].id);
            assert(ids[place] == id);
        }
    }
    assert(!record_ids(after).contains(id)) by {
        if record_ids(after).contains(id) {
            let j = choose|j: int| 0 <= j < after.len() && record_ids(after)[j] == id;
            assert(after[j].id == id);
        }
    }
}

/// An update that succeeded and is issued once more leaves the rows as
/// the first left them, whatever the store answers the second time.
pub proof fn second_update_changes_nothing(
    before: Seq<TagRecord>,
    data: UpdateTag,
    id: Option<EntityId>,
    first: Tag,
    between: Seq<TagRecord>,
    second: Result<Tag, RepositoryError>,
    after: Seq<TagRecord>,
)
    requires
        record_ids(before).no_duplicates(),
        change(before, data, id, Ok(first), between),
        change(between, data, id, second, after),
    ensures
        after == between,
{
    if second is Ok {
        let ids = record_ids(before);
        let place = position(ids, id->Some_0)->Some_0;
        lemma_position(ids, id->Some_0);
        assert(record_ids(between) =~= ids);
        data.applying_twice_is_applying_once(before[place]);
        assert(after =~= between);
    }
}

/// A store of tags.
pub trait TagRepository {
    /// The rows of the store, in ascending order of their identifiers.
    spec fn rows(&self) -> Seq<TagRecord>;

    /// Whether the store is in order; then its rows stand in ascending
    /// order of their identifiers, and no two have the same.
    spec fn well_formed(&self) -> bool;

    /// The rows of a store in order stand in ascending order of their
    /// identifiers, and no two have the same.
    proof fn identifiers_are_ascending(&self)
        requires
            self.well_formed(),
        ensures
            ascending(record_ids(self.rows())),
            record_ids(self.rows()).no_duplicates(),
    ;

    /// Lists the tags of one page.
    fn get(&self, query: GetTagQuery) -> (r: Result<Vec<Tag>, RepositoryError>)
        requires
            self.well_formed(),
        ensures
            listing(self.rows(), query, r),
    ;

    /// Creates a tag under a fresh identifier.
    fn create(&mut self, data: CreateTag) -> (r: Result<Tag, RepositoryError>)
        requires
            old(self).well_formed(),
        ensures
            final(self).well_formed(),
            creation(old(self).rows(), data, r, final(self).rows()),
    ;

    /// Changes the fields of a tag that the update names.
    fn update(&mut self, data: UpdateTag) -> (r: Result<Tag, RepositoryError>)
        requires
            old(self).well_formed(),
        ensures
            final(self).well_formed(),
            change(old(self).rows(), data, EntityId::parsed(data.id@), r, final(self).rows()),
    ;

    /// Deletes the tag whose identifier is written in `id`.
    fn delete(&mut self, id: String) -> (r: Result<(), RepositoryError>)
        requires
            old(self).well_formed(),
        ensures
            final(self).well_formed(),
            removal(old(self).rows(), EntityId::parsed(id@), r, final(self).rows()),
    ;
}

} // verus!
