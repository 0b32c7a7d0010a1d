//! What can be asked of the store about content items.

use vstd::prelude::*;
use crate::database::category_repository::CategoryRecord;
use crate::database::json::tags_view;
use crate::database::tag_repository::TagRecord;
use crate::database::user_repository::UserRecord;
use crate::error::{IdField, RepositoryError, ValidationError};
use crate::ident::{
    canonical_text, distinct, distinct_keeps_the_set, lemma_position, optional_ids_view, parsed_all,
    position, EntityId,
};
use crate::model::content::{Content, ContentStatus, Timestamp};
use crate::model::field::{fields_view, Field};
use crate::model::field_meta::FieldType;
use crate::repository::page::page;
use crate::text::replaced;
use crate::validation::{check_title, optional_view, title_violation, TITLE_MAX};

verus! {

/// A page of content items: at most `limit`, after skipping `offset`.
#[derive(Debug, Clone, Copy)]
pub struct GetContentQuery {
    pub limit: i32,
    pub offset: i32,
}

impl GetContentQuery {
    pub fn new(limit: i32, offset: i32) -> (r: GetContentQuery)
        ensures
            r == (GetContentQuery { limit, offset }),
    {
        GetContentQuery { limit, offset }
    }
}

impl Default for GetContentQuery {
    /// The first hundred.
    fn default() -> (r: GetContentQuery)
        ensures
            r == (GetContentQuery { limit: 100, offset: 0 }),
    {
        GetContentQuery { limit: 100, offset: 0 }
    }
}

/// The fields of a content item to create, with the tags to put on it and
/// the user who writes it.
#[derive(Debug, Clone)]
pub struct CreateContent {
    pub title: String,
    pub category_id: String,
    pub fields: Vec<Field>,
    pub tag_ids: Vec<String>,
    pub status: ContentStatus,
    pub created_by_id: String,
    pub updated_by_id: String,
}

impl CreateContent {
    pub fn new(
        title: String,
        category_id: String,
        fields: Vec<Field>,
        tag_ids: Vec<String>,
        status: ContentStatus,
        created_by_id: String,
        updated_by_id: String,
    ) -> (r: CreateContent)
        ensures
            r == (CreateContent {
                title,
                category_id,
                fields,
                tag_ids,
                status,
                created_by_id,
                updated_by_id,
            }),
    {
        CreateContent { title, category_id, fields, tag_ids, status, created_by_id, updated_by_id }
    }

    /// The rule of a content item that the title breaks.
    pub open spec fn violation(&self) -> Option<ValidationError> {
        title_violation(self.title@)
    }

    /// Holds the title against the rules of a content item.
    pub fn validate(&self) -> (r: Option<ValidationError>)
        ensures
            r == self.violation(),
    {
        check_title(self.title.as_str())
    }
}

/// The changes to make to a content item: an absent field stays as it is
/// stored, absent tags leave the tags as they are. The user who makes the
/// change is always named.
#[derive(Debug, Clone)]
pub struct UpdateContent {
    pub id: String,
    pub title: Option<String>,
    pub category_id: Option<String>,
    pub fields: Option<Vec<Field>>,
    pub tag_ids: Option<Vec<String>>,
    pub status: Option<ContentStatus>,
    pub updated_by_id: String,
}

/// The rule that a new title breaks; an absent one breaks none.
pub open spec fn optional_title_violation(title: Option<Seq<char>>) -> Option<ValidationError> {
    match title {
        Some(text) => title_violation(text),
        None => None,
    }
}

impl UpdateContent {
    pub fn new(
        id: String,
        title: Option<String>,
        category_id: Option<String>,
        fields: Option<Vec<Field>>,
        tag_ids: Option<Vec<String>>,
        status: Option<ContentStatus>,
        updated_by_id: String,
    ) -> (r: UpdateContent)
        ensures
            r == (UpdateContent { id, title, category_id, fields, tag_ids, status, updated_by_id }),
    {
        UpdateContent { id, title, category_id, fields, tag_ids, status, updated_by_id }
    }

    /// The rule of a content item that the new title breaks.
    pub open spec fn violation(&self) -> Option<ValidationError> {
        optional_title_violation(optional_view(self.title))
    }

    /// Holds the new title against the rules of a content item.
    pub fn validate(&self) -> (r: Option<ValidationError>)
        ensures
            r == self.violation(),
    {
        match &self.title {
            Some(text) => check_title(text.as_str()),
            None => None,
        }
    }
}

/// What was read from the identifiers that a content creation names.
#[derive(Debug, Clone)]
pub struct CreateContentIds {
    pub category: Option<EntityId>,
    pub created_by: Option<EntityId>,
    pub updated_by: Option<EntityId>,
    pub tags: Option<Vec<EntityId>>,
}

/// What contracts say of the identifiers read for a content creation.
pub struct CreateIdsModel {
    pub category: Option<EntityId>,
    pub created_by: Option<EntityId>,
    pub updated_by: Option<EntityId>,
    pub tags: Option<Seq<EntityId>>,
}

impl View for CreateContentIds {
    type V = CreateIdsModel;

    open spec fn view(&self) -> CreateIdsModel {
        CreateIdsModel {
            category: self.category,
            created_by: self.created_by,
            updated_by: self.updated_by,
            tags: optional_ids_view(self.tags),
        }
    }
}

/// What is read from the identifiers that a content creation names.
pub open spec fn parsed_create_ids(data: CreateContent) -> CreateIdsModel {
    CreateIdsModel {
        category: EntityId::parsed(data.category_id@),
        created_by: EntityId::parsed(data.created_by_id@),
        updated_by: EntityId::parsed(data.updated_by_id@),
        tags: parsed_all(data.tag_ids@),
    }
}

/// What was read from the identifiers that a content update names. Of an
/// identifier that the update does not name, nothing is read.
#[derive(Debug, Clone)]
pub struct UpdateContentIds {
    pub id: Option<EntityId>,
    pub category: Option<EntityId>,
    pub updated_by: Option<EntityId>,
    pub tags: Option<Vec<EntityId>>,
}

/// What contracts say of the identifiers read for a content update.
pub struct UpdateIdsModel {
    pub id: Option<EntityId>,
    pub category: Option<EntityId>,
    pub updated_by: Option<EntityId>,
    pub tags: Option<Seq<EntityId>>,
}

impl View for UpdateContentIds {
    type V = UpdateIdsModel;

    open spec fn view(&self) -> UpdateIdsModel {
        UpdateIdsModel {
            id: self.id,
            category: self.category,
            updated_by: self.updated_by,
            tags: optional_ids_view(self.tags),
        }
    }
}

/// What is read from the identifiers that a content update names.
pub open spec fn parsed_update_ids(data: UpdateContent) -> UpdateIdsModel {
    UpdateIdsModel {
        id: EntityId::parsed(data.id@),
        category: match data.category_id {
            Some(text) => EntityId::parsed(text@),
            None => None,
        },
        updated_by: EntityId::parsed(data.updated_by_id@),
        tags: match data.tag_ids {
            Some(texts) => parsed_all(texts@),
            None => None,
        },
    }
}

/// What contracts say of a stored content item: the row, and the tags
/// that are on the item, none twice.
pub struct ContentRecord {
    pub id: EntityId,
    pub title: Seq<char>,
    pub category: EntityId,
    pub status: ContentStatus,
    pub fields: Seq<(FieldType, Seq<char>)>,
    pub tags: Seq<EntityId>,
    pub created_by: EntityId,
    pub updated_by: EntityId,
    pub published_at: Option<Timestamp>,
    pub created_at: Timestamp,
    pub updated_at: Timestamp,
}

/// What content items refer to: the categories, the users and the tags of
/// the store.
pub struct References {
    pub categories: Seq<CategoryRecord>,
    pub users: Seq<UserRecord>,
    pub tags: Seq<TagRecord>,
}

impl References {
    /// The identifiers of the categories, in order.
    pub open spec fn category_ids(self) -> Seq<EntityId> {
        Seq::new(self.categories.len(), |i: int| self.categories[i].id)
    }

    /// The identifiers of the users, in order.
    pub open spec fn user_ids(self) -> Seq<EntityId> {
        Seq::new(self.users.len(), |i: int| self.users[i].id)
    }

    /// The identifiers of the tags, in order.
    pub open spec fn tag_ids(self) -> Seq<EntityId> {
        Seq::new(self.tags.len(), |i: int| self.tags[i].id)
    }

    /// Whether the store has every one of `tags`.
    pub open spec fn has_tags(self, tags: Seq<EntityId>) -> bool {
        forall|i: int| 0 <= i < tags.len() ==> self.tag_ids().contains(#[trigger] tags[i])
    }

    /// Whether the store has everything that `record` refers to.
    pub open spec fn cover(self, record: ContentRecord) -> bool {
        &&& self.category_ids().contains(record.category)
        &&& self.user_ids().contains(record.created_by)
        &&& self.user_ids().contains(record.updated_by)
        &&& self.has_tags(record.tags)
    }

    /// The name of the category with the identifier `id`.
    pub open spec fn category_name(self, id: EntityId) -> Seq<char> {
        self.categories[position(self.category_ids(), id)->Some_0].name
    }

    /// The name of the user with the identifier `id`.
    pub open spec fn user_name(self, id: EntityId) -> Seq<char> {
        self.users[position(self.user_ids(), id)->Some_0].name
    }

    /// The name of the tag with the identifier `id`.
    pub open spec fn tag_name(self, id: EntityId) -> Seq<char> {
        self.tags[position(self.tag_ids(), id)->Some_0].name
    }

    /// The tags of an item as the item shows them: for each, in order, the
    /// identifier in its canonical form and the name.
    pub open spec fn shown_tags(self, tags: Seq<EntityId>) -> Seq<(Seq<char>, Seq<char>)> {
        Seq::new(tags.len(), |i: int| (canonical_text(tags[i].value), self.tag_name(tags[i])))
    }

    /// Whether `content` is the content item that a record stands for:
    /// identifiers in their canonical form, the names of the category, the
    /// users and the tags as the store has them, the time of publication
    /// present exactly where the record has one, everything else as it is.
    pub open spec fn shows(self, content: Content, record: ContentRecord) -> bool {
        &&& content.id@ == canonical_text(record.id.value)
        &&& content.title@ == record.title
        &&& content.category.id@ == canonical_text(record.category.value)
        &&& content.category.name@ == self.category_name(record.category)
        &&& content.status == record.status
        &&& fields_view(content.fields@) == record.fields
        &&& tags_view(content.tags@) == self.shown_tags(record.tags)
        &&& content.created_by.id@ == canonical_text(record.created_by.value)
        &&& content.created_by.name@ == self.user_name(record.created_by)
        &&& content.updated_by.id@ == canonical_text(record.updated_by.value)
        &&& content.updated_by.name@ == self.user_name(record.updated_by)
        &&& content.published_at == record.published_at
        &&& content.created_at == record.created_at
        &&& content.updated_at == record.updated_at
    }
}

/// The identifiers of content records, in order.
pub open spec fn record_ids(rows: Seq<ContentRecord>) -> Seq<EntityId> {
    Seq::new(rows.len(), |i: int| rows[i].id)
}

/// The field values that an update leaves: the new ones where there are
/// any, else the stored ones.
pub open spec fn replaced_fields(
    stored: Seq<(FieldType, Seq<char>)>,
    new: Option<Vec<Field>>,
) -> Seq<(FieldType, Seq<char>)> {
    match new {
        Some(list) => fields_view(list@),
        None => stored,
    }
}

impl CreateContent {
    /// A title that is longer than its bound breaks its rule.
    pub proof fn over_long_is_refused(self)
        ensures
            self.title@.len() > TITLE_MAX ==> self.violation() is Some,
    {
    }

    /// The record that is stored for the fields under `id` at the time
    /// `now`, where `ids` is what was read from the identifiers: the tags
    /// without repetitions, no time of publication.
    pub open spec fn record(self, id: EntityId, ids: CreateIdsModel, now: Timestamp) -> ContentRecord {
        ContentRecord {
            id,
            title: self.title@,
            category: ids.category->Some_0,
            status: self.status,
            fields: fields_view(self.fields@),
            tags: distinct(ids.tags->Some_0),
            created_by: ids.created_by->Some_0,
            updated_by: ids.updated_by->Some_0,
            published_at: None,
            created_at: now,
            updated_at: now,
        }
    }

    /// The first identifier that could not be read, in the order category,
    /// creating user, updating user, tags.
    pub open spec fn unreadable(self, ids: CreateIdsModel) -> Option<IdField> {
        if ids.category is None {
            Some(IdField::Category)
        } else if ids.created_by is None {
            Some(IdField::CreatedBy)
        } else if ids.updated_by is None {
            Some(IdField::UpdatedBy)
        } else if ids.tags is None {
            Some(IdField::Tag)
        } else {
            None
        }
    }
}

impl UpdateContent {
    /// A new title that is longer than its bound breaks its rule.
    pub proof fn over_long_is_refused(self)
        ensures
            self.title is Some && self.title->Some_0@.len() > TITLE_MAX ==> self.violation()
                is Some,
    {
    }

    /// The record that the update makes of a stored record at the time
    /// `now`, where `ids` is what was read from the identifiers: each
    /// field that is present takes the place of the stored one, each
    /// absent field leaves the stored one as it is; new tags, without
    /// repetitions, take the place of all the stored ones; the user who
    /// makes the change and the time of the change are always set.
    pub open spec fn applied_to(self, stored: ContentRecord, ids: UpdateIdsModel, now: Timestamp) -> ContentRecord {
        ContentRecord {
            id: stored.id,
            title: replaced(stored.title, self.title),
            category: if self.category_id is Some {
                ids.category->Some_0
            } else {
                stored.category
            },
            status: match self.status {
                Some(status) => status,
                None => stored.status,
            },
            fields: replaced_fields(stored.fields, self.fields),
            tags: if self.tag_ids is Some {
                distinct(ids.tags->Some_0)
            } else {
                stored.tags
            },
            created_by: stored.created_by,
            updated_by: ids.updated_by->Some_0,
            published_at: stored.published_at,
            created_at: stored.created_at,
            updated_at: now,
        }
    }

    /// The first identifier that could not be read, in the order content
    /// item, category, updating user, tags, as far as the update names
    /// them.
    pub open spec fn unreadable(self, ids: UpdateIdsModel) -> Option<IdField> {
        if ids.id is None {
            Some(IdField::Id)
        } else if self.category_id is Some && ids.category is None {
            Some(IdField::Category)
        } else if ids.updated_by is None {
            Some(IdField::UpdatedBy)
        } else if self.tag_ids is Some && ids.tags is None {
            Some(IdField::Tag)
        } else {
            None
        }
    }

    /// Applying an update a second time changes nothing more but the time
    /// of the change.
    pub proof fn applying_twice_is_applying_once(
        self,
        stored: ContentRecord,
        ids: UpdateIdsModel,
        first: Timestamp,
        second: Timestamp,
    )
        ensures
            self.applied_to(self.applied_to(stored, ids, first), ids, second) == self.applied_to(
                stored,
                ids,
                second,
            ),
    {
    }
}

/// Whether the records stand from the oldest to the newest: none was
/// created later than one that follows it.
pub open spec fn oldest_first(rows: Seq<ContentRecord>) -> bool {
    forall|i: int, j: int|
        0 <= i < j < rows.len() ==> (#[trigger] rows[i]).created_at.micros <= (
        #[trigger] rows[j]).created_at.micros
}

/// Whether the records stand from the newest to the oldest: none was
/// created earlier than one that follows it.
pub open spec fn newest_first(rows: Seq<ContentRecord>) -> bool {
    forall|i: int, j: int|
        0 <= i < j < rows.len() ==> (#[trigger] rows[i]).created_at.micros >= (
        #[trigger] rows[j]).created_at.micros
}

/// Whether none of the records was created later than `now`.
pub open spec fn none_later(rows: Seq<ContentRecord>, now: Timestamp) -> bool {
    forall|i: int| 0 <= i < rows.len() ==> (#[trigger] rows[i]).created_at.micros <= now.micros
}

/// Of records that stand from the oldest to the newest, every page of
/// the listing stands from the newest to the oldest.
pub proof fn pages_are_newest_first(rows: Seq<ContentRecord>, limit: int, offset: int)
    requires
        oldest_first(rows),
        0 <= limit,
        0 <= offset,
    ensures
        newest_first(page(rows.reverse(), limit, offset)),
{
    let turned = rows.reverse();
    let shown = page(turned, limit, offset);
    let from = if offset < turned.len() {
        offset
    } else {
        turned.len() as int
    };
    assert forall|i: int, j: int| 0 <= i < j < shown.len() implies (#[trigger] shown[i]).created_at.micros
        >= (#[trigger] shown[j]).created_at.micros by {
        assert(shown[i] == turned[from + i]);
        assert(shown[j] == turned[from + j]);
        assert(turned[from + i] == rows[rows.len() - 1 - (from + i)]);
        assert(turned[from + j] == rows[rows.len() - 1 - (from + j)]);
    }
}

/// What a listing may answer, given the records of the store: a failure
/// of the store, or the content items of the records that the page shows,
/// newest first by the time of their creation. A page cannot be asked for with a negative limit or
/// offset.
pub open spec fn listing(
    rows: Seq<ContentRecord>,
    references: References,
    query: GetContentQuery,
    answer: Result<Vec<Content>, RepositoryError>,
) -> bool {
    match answer {
        Ok(contents) => {
            let shown = page(rows.reverse(), query.limit as int, query.offset as int);
            &&& query.limit >= 0
            &&& query.offset >= 0
            &&& contents@.len() == shown.len()
            &&& forall|i: int|
                0 <= i < shown.len() ==> references.shows(#[trigger] contents@[i], shown[i])
            &&& newest_first(shown)
        },
        Err(e) => e is Store,
    }
}

/// What a creation may answer and leave behind, given the records of the
/// store before it and what was read from the identifiers. A title that
/// breaks its rule, then an identifier that could not be read, are refused
/// before the store is touched. Else the store fails and nothing changes,
/// or a record with the fields is added under an identifier that no record
/// had, created at a time that is not before that of any record, the
/// store has everything the record refers to, and the answer is its
/// content item.
pub open spec fn creation(
    before: Seq<ContentRecord>,
    references: References,
    data: CreateContent,
    ids: CreateIdsModel,
    answer: Result<Content, RepositoryError>,
    after: Seq<ContentRecord>,
) -> bool {
    if data.violation() is Some {
        answer == Err::<Content, RepositoryError>(
            RepositoryError::Validation(data.violation()->Some_0),
        ) && after == before
    } else if data.unreadable(ids) is Some {
        answer == Err::<Content, RepositoryError>(
            RepositoryError::InvalidId(data.unreadable(ids)->Some_0),
        ) && after == before
    } else {
        match answer {
            Ok(content) => exists|id: EntityId, now: Timestamp|
                {
                    &&& !record_ids(before).contains(id)
                    &&& none_later(before, now)
                    &&& references.cover(data.record(id, ids, now))
                    &&& after == before.push(#[trigger] data.record(id, ids, now))
                    &&& references.shows(content, data.record(id, ids, now))
                },
            Err(e) => e is Store && after == before,
        }
    }
}

/// What an update may answer and leave behind, given the records of the
/// store before it and what was read from the identifiers. A title that
/// breaks its rule, then an identifier that could not be read, are refused
/// before the store is touched. Else the store fails and nothing changes,
/// neither the fields nor the tags; or no record has the identifier and
/// nothing changes; or the record with the identifier becomes what the
/// update makes of it, the store has everything the record then refers to,
/// and the answer is its content item.
pub open spec fn change(
    before: Seq<ContentRecord>,
    references: References,
    data: UpdateContent,
    ids: UpdateIdsModel,
    answer: Result<Content, RepositoryError>,
    after: Seq<ContentRecord>,
) -> bool {
    if data.violation() is Some {
        answer == Err::<Content, RepositoryError>(
            RepositoryError::Validation(data.violation()->Some_0),
        ) && after == before
    } else if data.unreadable(ids) is Some {
        answer == Err::<Content, RepositoryError>(
            RepositoryError::InvalidId(data.unreadable(ids)->Some_0),
        ) && after == before
    } else {
        let place = position(record_ids(before), ids.id->Some_0);
        match answer {
            Ok(content) => place is Some && exists|now: Timestamp|
                {
                    &&& references.cover(data.applied_to(before[place->Some_0], ids, now))
                    &&& after == before.update(
                        place->Some_0,
                        #[trigger] data.applied_to(before[place->Some_0], ids, now),
                    )
                    &&& references.shows(
                        content,
                        data.applied_to(before[place->Some_0], ids, now),
                    )
                },
            Err(e) => after == before && (e is Store || (e == RepositoryError::NotFound
                && place is None)),
        }
    }
}

/// What a deletion may answer and leave behind, given the records of the
/// store before it and what was read from the identifier. An identifier
/// that could not be read is refused before the store is touched. Else
/// the store fails and nothing changes, or no record has the identifier
/// and nothing changes, or the record with the identifier is gone, with
/// its tags, and every other record stays where it was.
pub open spec fn removal(
    before: Seq<ContentRecord>,
    id: Option<EntityId>,
    answer: Result<(), RepositoryError>,
    after: Seq<ContentRecord>,
) -> bool {
    if id is None {
        answer == Err::<(), RepositoryError>(RepositoryError::InvalidId(IdField::Id)) && after
            == before
    } else {
        let place = position(record_ids(before), id->Some_0);
        match answer {
            Ok(_) => place is Some && after == before.remove(place->Some_0),
            Err(e) => after == before && (e is Store || (e == RepositoryError::NotFound
                && place is None)),
        }
    }
}

/// A record without the time of its last change.
pub open spec fn without_time_of_change(record: ContentRecord) -> ContentRecord {
    ContentRecord { updated_at: Timestamp { micros: 0 }, ..record }
}

/// Records without the times of their last changes.
pub open spec fn without_times_of_change(rows: Seq<ContentRecord>) -> Seq<ContentRecord> {
    Seq::new(rows.len(), |i: int| without_time_of_change(rows[i]))
}

/// An update that succeeded and is issued once more leaves the records as
/// the first left them, but for the time of the change, whatever the store
/// answers the second time.
pub proof fn second_update_changes_nothing(
    before: Seq<ContentRecord>,
    references: References,
    data: UpdateContent,
    ids: UpdateIdsModel,
    first: Content,
    between: Seq<ContentRecord>,
    second: Result<Content, RepositoryError>,
    after: Seq<ContentRecord>,
)
    requires
        record_ids(before).no_duplicates(),
        change(before, references, data, ids, Ok(first), between),
        change(between, references, data, ids, second, after),
    ensures
        without_times_of_change(after) == without_times_of_change(between),
{
    if second is Ok {
        let ids_before = record_ids(before);
        let place = position(ids_before, ids.id->Some_0)->Some_0;
        lemma_position(ids_before, ids.id->Some_0);
        assert(record_ids(between) =~= ids_before);
        assert(without_times_of_change(after) =~= without_times_of_change(between));
    }
}

/// An update that fails leaves every record as it was: neither the
/// fields of the item nor its tags have changed, whichever step failed.
pub proof fn failed_update_changes_nothing(
    before: Seq<ContentRecord>,
    references: References,
    data: UpdateContent,
    ids: UpdateIdsModel,
    failure: RepositoryError,
    after: Seq<ContentRecord>,
)
    requires
        change(before, references, data, ids, Err(failure), after),
    ensures
        after == before,
{
}

/// After a creation, the tags on the item are exactly the tags that were
/// supplied, as a set: each once, whatever their number and order in the
/// command.
pub proof fn created_tags_are_the_supplied_set(
    data: CreateContent,
    id: EntityId,
    ids: CreateIdsModel,
    now: Timestamp,
)
    requires
        ids.tags is Some,
    ensures
        data.record(id, ids, now).tags.no_duplicates(),
        data.record(id, ids, now).tags.to_set() == ids.tags->Some_0.to_set(),
{
    distinct_keeps_the_set(ids.tags->Some_0);
}

/// After an update that names tags, the tags on the item are exactly the
/// tags that were supplied, as a set, whatever tags were on it before. An
/// update that names no tags leaves the tags as they were.
pub proof fn updated_tags_are_the_supplied_set(
    data: UpdateContent,
    stored: ContentRecord,
    ids: UpdateIdsModel,
    now: Timestamp,
)
    requires
        data.tag_ids is Some ==> ids.tags is Some,
    ensures
        data.tag_ids is Some ==> data.applied_to(stored, ids, now).tags.no_duplicates(),
        data.tag_ids is Some ==> data.applied_to(stored, ids, now).tags.to_set()
            == ids.tags->Some_0.to_set(),
        data.tag_ids is None ==> data.applied_to(stored, ids, now).tags == stored.tags,
{
    if data.tag_ids is Some {
        distinct_keeps_the_set(ids.tags->Some_0);
    }
}

/// After a content item was deleted, no record has its identifier, so no
/// listing shows it.
pub proof fn deleted_is_gone(
    before: Seq<ContentRecord>,
    id: EntityId,
    after: Seq<ContentRecord>,
    limit: int,
    offset: int,
)
    requires
        record_ids(before).no_duplicates(),
        removal(before, Some(id), Ok(()), after),
        0 <= limit,
        0 <= offset,
    ensures
        !record_ids(after).contains(id),
        forall|i: int|
            0 <= i < page(after.reverse(), limit, offset).len() ==> (#[trigger] page(
                after.reverse(),
                limit,
                offset,
            )[i]).id != id,
{
    let ids = record_ids(before);
    lemma_position(ids, id);
    let place = position(ids, id)->Some_0;
    assert forall|j: int| 0 <= j < after.len() implies (#[trigger] after[j]).id != id by {
        if j < place {
            assert(after[j] == before[j]);
            assert(ids[j] == before[j].id);
        } else {
            assert(after[j] == before[j + 1]);
            assert(ids[j + 1] == before[j + 1].id);
            assert(ids[place] == id);
        }
    }
    if record_ids(after).contains(id) {
        let j = choose|j: int| 0 <= j < after.len() && record_ids(after)[j] == id;
        assert(after[j].id == id);
    }
}

/// A store of content items, with the categories, users and tags that the
/// items refer to.
pub trait ContentRepository {
    /// The records of the store, from the oldest to the newest by the
    /// time of their creation.
    spec fn rows(&self) -> Seq<ContentRecord>;

    /// What the content items of the store can refer to.
    spec fn references(&self) -> References;

    /// Whether the store is in order; then no two records have the same
    /// identifier, the records stand from the oldest to the newest, and
    /// the store has everything its records refer to.
    spec fn well_formed(&self) -> bool;

    /// No two records of a store in order have the same identifier, the
    /// records stand from the oldest to the newest, and the store has
    /// everything its records refer to.
    proof fn store_is_consistent(&self)
        requires
            self.well_formed(),
        ensures
            record_ids(self.rows()).no_duplicates(),
            oldest_first(self.rows()),
            forall|i: int|
                0 <= i < self.rows().len() ==> self.references().cover(#[trigger] self.rows()[i]),
    ;

    /// Lists the content items of one page, newest first by the time of
    /// their creation.
    fn get(&self, query: GetContentQuery) -> (r: Result<Vec<Content>, RepositoryError>)
        requires
            self.well_formed(),
        ensures
            listing(self.rows(), self.references(), query, r),
    ;

    /// Creates a content item under a fresh identifier and puts the tags
    /// on it.
    fn create(&mut self, data: CreateContent) -> (r: Result<Content, RepositoryError>)
        requires
            old(self).well_formed(),
        ensures
            final(self).well_formed(),
            final(self).references() == old(self).references(),
            creation(
                old(self).rows(),
                old(self).references(),
                data,
                parsed_create_ids(data),
                r,
                final(self).rows(),
            ),
    ;

    /// Changes the fields of a content item that the update names, and
    /// its tags where the update names tags, all or nothing.
    fn update(&mut self, data: UpdateContent) -> (r: Result<Content, RepositoryError>)
        requires
            old(self).well_formed(),
        ensures
            final(self).well_formed(),
            final(self).references() == old(self).references(),
            change(
                old(self).rows(),
                old(self).references(),
                data,
                parsed_update_ids(data),
                r,
                final(self).rows(),
            ),
    ;

    /// Deletes the content item whose identifier is written in `id`.
    fn delete(&mut self, id: String) -> (r: Result<(), RepositoryError>)
        requires
            old(self).well_formed(),
        ensures
            final(self).well_formed(),
            final(self).references() == old(self).references(),
            removal(old(self).rows(), EntityId::parsed(id@), r, final(self).rows()),
    ;
}

} // verus!
