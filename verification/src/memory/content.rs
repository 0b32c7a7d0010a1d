//! A store of content items that lives in memory, with the categories,
//! users and tags that the items refer to.

use vstd::prelude::*;
use crate::database::category_repository::{CategoryRecord, CategoryRow};
use crate::database::json::{tag_view, tags_view};
use crate::database::tag_repository::{TagRecord, TagRow};
use crate::database::user_repository::{UserRecord, UserRow};
use crate::error::{IdField, RepositoryError, StoreFailure};
use crate::ident::{
    is_version_7, lemma_position, lemma_remove_keeps_distinct, parse_all, position,
    without_repetitions, EntityId,
};
use crate::memory::keyed::{find, keys, Keyed};
use crate::model::content::{
    Content, ContentCategory, ContentStatus, ContentTag, CreatedBy, Timestamp, UpdatedBy,
};
use crate::model::field::{fields_view, Field};
use crate::repository::content::{
    creation, newest_first, none_later, oldest_first, pages_are_newest_first, parsed_create_ids,
    parsed_update_ids, record_ids, ContentRecord, ContentRepository, CreateContent, GetContentQuery,
    References, UpdateContent,
};
use crate::repository::page::{page, page_bounds};

verus! {

/// A content item as it is kept in memory.
pub struct StoredContent {
    pub id: EntityId,
    pub title: String,
    pub category: EntityId,
    pub status: ContentStatus,
    pub fields: Vec<Field>,
    pub tags: Vec<EntityId>,
    pub created_by: EntityId,
    pub updated_by: EntityId,
    pub published_at: Option<Timestamp>,
    pub created_at: Timestamp,
    pub updated_at: Timestamp,
}

impl View for StoredContent {
    type V = ContentRecord;

    open spec fn view(&self) -> ContentRecord {
        ContentRecord {
            id: self.id,
            title: self.title@,
            category: self.category,
            status: self.status,
            fields: fields_view(self.fields@),
            tags: self.tags@,
            created_by: self.created_by,
            updated_by: self.updated_by,
            published_at: self.published_at,
            created_at: self.created_at,
            updated_at: self.updated_at,
        }
    }
}

impl Keyed for StoredContent {
    open spec fn key(&self) -> EntityId {
        self.id
    }

    fn id(&self) -> (r: EntityId) {
        self.id
    }
}

/// What contracts say of stored content items, in order.
pub open spec fn records(rows: Seq<StoredContent>) -> Seq<ContentRecord> {
    Seq::new(rows.len(), |i: int| rows[i]@)
}

/// What contracts say of category rows, in order.
pub open spec fn category_records(rows: Seq<CategoryRow>) -> Seq<CategoryRecord> {
    Seq::new(rows.len(), |i: int| rows[i]@)
}

/// What contracts say of user rows, in order.
pub open spec fn user_records(rows: Seq<UserRow>) -> Seq<UserRecord> {
    Seq::new(rows.len(), |i: int| rows[i]@)
}

/// What contracts say of tag rows, in order.
pub open spec fn tag_records(rows: Seq<TagRow>) -> Seq<TagRecord> {
    Seq::new(rows.len(), |i: int| rows[i]@)
}

/// A copy of field values.
pub fn copy_of_fields(fields: &Vec<Field>) -> (r: Vec<Field>)
    ensures
        fields_view(r@) == fields_view(fields@),
{
    let mut copies: Vec<Field> = Vec::new();
    let mut i: usize = 0;
    while i < fields.len()
        invariant
            i <= fields.len(),
            copies@.len() == i,
            forall|j: int| 0 <= j < i ==> (#[trigger] copies@[j]).view() == fields@[j].view(),
        decreases fields.len() - i,
    {
        copies.push(Field { field_type: fields[i].field_type, value: fields[i].value.clone() });
        i += 1;
    }
    assert(fields_view(copies@) =~= fields_view(fields@));
    copies
}

/// Content items kept in memory, from the oldest to the newest, with
/// the categories, users and tags they can refer to, and a clock that
/// ticks with every write and gives each new item its time.
pub struct MemoryContentRepository {
    categories: Vec<CategoryRow>,
    users: Vec<UserRow>,
    tags: Vec<TagRow>,
    stored: Vec<StoredContent>,
    clock: i64,
}

impl MemoryContentRepository {
    /// A store without content items, with what content items can refer
    /// to.
    pub fn new(categories: Vec<CategoryRow>, users: Vec<UserRow>, tags: Vec<TagRow>) -> (r:
        MemoryContentRepository)
        ensures
            r.well_formed(),
            r.rows() == Seq::<ContentRecord>::empty(),
            r.references() == (References {
                categories: category_records(categories@),
                users: user_records(users@),
                tags: tag_records(tags@),
            }),
    {
        let r = MemoryContentRepository { categories, users, tags, stored: Vec::new(), clock: 0 };
        assert(r.rows() =~= Seq::<ContentRecord>::empty());
        r
    }

    /// The name of the category with the identifier `id`, if the store
    /// has it.
    fn category_name(&self, id: EntityId) -> (r: Option<String>)
        ensures
            r is Some <==> self.references().category_ids().contains(id),
            r is Some ==> r->Some_0@ == self.references().category_name(id),
    {
        proof {
            assert(keys(self.categories@) =~= self.references().category_ids());
            lemma_position(keys(self.categories@), id);
        }
        match find(&self.categories, id) {
            Some(k) => Some(self.categories[k].name.clone()),
            None => None,
        }
    }

    /// The name of the user with the identifier `id`, if the store has
    /// them.
    fn user_name(&self, id: EntityId) -> (r: Option<String>)
        ensures
            r is Some <==> self.references().user_ids().contains(id),
            r is Some ==> r->Some_0@ == self.references().user_name(id),
    {
        proof {
            assert(keys(self.users@) =~= self.references().user_ids());
            lemma_position(keys(self.users@), id);
        }
        match find(&self.users, id) {
            Some(k) => Some(self.users[k].name.clone()),
            None => None,
        }
    }

    /// The name of the tag with the identifier `id`, if the store has it.
    fn tag_name(&self, id: EntityId) -> (r: Option<String>)
        ensures
            r is Some <==> self.references().tag_ids().contains(id),
            r is Some ==> r->Some_0@ == self.references().tag_name(id),
    {
        proof {
            assert(keys(self.tags@) =~= self.references().tag_ids());
            lemma_position(keys(self.tags@), id);
        }
        match find(&self.tags, id) {
            Some(k) => Some(self.tags[k].name.clone()),
            None => None,
        }
    }

    /// The tags with the identifiers `tags` as an item shows them, if the
    /// store has them all.
    fn shown_tags(&self, tags: &Vec<EntityId>) -> (r: Option<Vec<ContentTag>>)
        ensures
            r is Some <==> self.references().has_tags(tags@),
            r is Some ==> tags_view(r->Some_0@) == self.references().shown_tags(tags@),
    {
        let mut shown: Vec<ContentTag> = Vec::new();
        let mut i: usize = 0;
        while i < tags.len()
            invariant
                i <= tags.len(),
                shown@.len() == i,
                forall|j: int|
                    0 <= j < i ==> self.references().tag_ids().contains(#[trigger] tags@[j]),
                forall|j: int|
                    0 <= j < i ==> tag_view(#[trigger] shown@[j]) == self.references().shown_tags(
                        tags@,
                    )[j],
            decreases tags.len() - i,
        {
            match self.tag_name(tags[i]) {
                Some(name) => {
                    shown.push(ContentTag { id: tags[i].to_text(), name });
                },
                None => {
                    return None;
                },
            }
            i += 1;
        }
        assert(tags_view(shown@) =~= self.references().shown_tags(tags@));
        Some(shown)
    }

    /// The content item that a stored item stands for, if the store has
    /// everything the item refers to.
    fn render(&self, row: &StoredContent) -> (r: Option<Content>)
        ensures
            r is Some <==> self.references().cover(row@),
            r is Some ==> self.references().shows(r->Some_0, row@),
    {
        let category_name = match self.category_name(row.category) {
            Some(name) => name,
            None => { return None; },
        };
        let created_by_name = match self.user_name(row.created_by) {
            Some(name) => name,
            None => { return None; },
        };
        let updated_by_name = match self.user_name(row.updated_by) {
            Some(name) => name,
            None => { return None; },
        };
        let tags = match self.shown_tags(&row.tags) {
            Some(tags) => tags,
            None => { return None; },
        };
        Some(
            Content {
                id: row.id.to_text(),
                title: row.title.clone(),
                category: ContentCategory::new(row.category.to_text(), category_name),
                status: row.status,
                fields: copy_of_fields(&row.fields),
                tags,
                created_by: CreatedBy::new(row.created_by.to_text(), created_by_name),
                updated_by: UpdatedBy::new(row.updated_by.to_text(), updated_by_name),
                published_at: row.published_at,
                created_at: row.created_at,
                updated_at: row.updated_at,
            },
        )
    }

    /// Lets the clock tick and tells the time: the clock goes on by one,
    /// unless it stands at its last value, and the time told is what the
    /// clock then shows. Nothing else of the store changes.
    fn tick(&mut self) -> (r: Timestamp)
        ensures
            old(self).clock < i64::MAX ==> final(self).clock == old(self).clock + 1,
            old(self).clock == i64::MAX ==> final(self).clock == i64::MAX,
            r == (Timestamp { micros: final(self).clock }),
            final(self).categories == old(self).categories,
            final(self).users == old(self).users,
            final(self).tags == old(self).tags,
            final(self).stored == old(self).stored,
    {
        if self.clock < i64::MAX {
            self.clock = self.clock + 1;
        }
        Timestamp { micros: self.clock }
    }

    /// Creates a content item under `id` with the tags of `data` on it.
    /// A title that breaks its rule, then an identifier that cannot be
    /// read, are refused. A category, a user or a tag that the store does
    /// not have, or an identifier that a record already has, fails as a
    /// broken constraint, and nothing is stored. Else the record is added
    /// last, with the tags without repetitions and the time that the clock
    /// shows, and the answer is its content item. What the record refers
    /// to does not depend on its times, so the contract asks for it at any
    /// time.
    pub fn create_with(&mut self, id: EntityId, data: CreateContent) -> (r: Result<
        Content,
        RepositoryError,
    >)
        requires
            old(self).well_formed(),
        ensures
            final(self).well_formed(),
            final(self).references() == old(self).references(),
            creation(
                old(self).rows(),
                old(self).references(),
                data,
                parsed_create_ids(data),
                r,
                final(self).rows(),
            ),
            r is Ok ==> exists|now: Timestamp|
                final(self).rows() == old(self).rows().push(
                    #[trigger] data.record(id, parsed_create_ids(data), now),
                ),
            r matches Err(RepositoryError::Store(failure)) ==> failure == StoreFailure::Constraint,
            r is Ok <==> {
                &&& data.violation() is None
                &&& data.unreadable(parsed_create_ids(data)) is None
                &&& !record_ids(old(self).rows()).contains(id)
                &&& old(self).references().cover(
                    data.record(id, parsed_create_ids(data), Timestamp { micros: 0 }),
                )
            },
    {
        let ghost ids = parsed_create_ids(data);
        let ghost before = self.rows();
        if let Some(e) = data.validate() {
            return Err(RepositoryError::Validation(e));
        }
        let category = match EntityId::parse(data.category_id.as_str()) {
            Some(category) => category,
            None => { return Err(RepositoryError::InvalidId(IdField::Category)); },
        };
        let created_by = match EntityId::parse(data.created_by_id.as_str()) {
            Some(user) => user,
            None => { return Err(RepositoryError::InvalidId(IdField::CreatedBy)); },
        };
        let updated_by = match EntityId::parse(data.updated_by_id.as_str()) {
            Some(user) => user,
            None => { return Err(RepositoryError::InvalidId(IdField::UpdatedBy)); },
        };
        let tags = match parse_all(&data.tag_ids) {
            Some(tags) => without_repetitions(&tags),
            None => { return Err(RepositoryError::InvalidId(IdField::Tag)); },
        };
        proof {
            lemma_position(keys(self.stored@), id);
            assert(keys(self.stored@) =~= record_ids(self.rows()));
        }
        if find(&self.stored, id).is_some() {
            return Err(RepositoryError::Store(StoreFailure::Constraint));
        }
        let now = self.tick();
        let CreateContent {
            title,
            category_id: _,
            fields,
            tag_ids: _,
            status,
            created_by_id: _,
            updated_by_id: _,
        } = data;
        let row = StoredContent {
            id,
            title,
            category,
            status,
            fields,
            tags,
            created_by,
            updated_by,
            published_at: None,
            created_at: now,
            updated_at: now,
        };
        assert(row@ == data.record(id, ids, now));
        assert(self.references().cover(row@) == self.references().cover(
            data.record(id, ids, Timestamp { micros: 0 }),
        ));
        let content = match self.render(&row) {
            Some(content) => content,
            None => { return Err(RepositoryError::Store(StoreFailure::Constraint)); },
        };
        self.stored.push(row);
        proof {
            assert(self.rows() =~= before.push(data.record(id, ids, now)));
            assert(record_ids(self.rows()) =~= record_ids(before).push(id));
        }
        Ok(content)
    }
}

impl ContentRepository for MemoryContentRepository {
    closed spec fn rows(&self) -> Seq<ContentRecord> {
        records(self.stored@)
    }

    closed spec fn references(&self) -> References {
        References {
            categories: category_records(self.categories@),
            users: user_records(self.users@),
            tags: tag_records(self.tags@),
        }
    }

    closed spec fn well_formed(&self) -> bool {
        &&& record_ids(self.rows()).no_duplicates()
        &&& oldest_first(self.rows())
        &&& none_later(self.rows(), Timestamp { micros: self.clock })
        &&& forall|i: int|
            0 <= i < self.rows().len() ==> self.references().cover(#[trigger] self.rows()[i])
    }

    proof fn store_is_consistent(&self) {
    }

    /// Never fails but on a negative limit or offset.
    fn get(&self, query: GetContentQuery) -> (r: Result<Vec<Content>, RepositoryError>)
        ensures
            r is Ok <==> query.limit >= 0 && query.offset >= 0,
    {
        if query.limit < 0 || query.offset < 0 {
            return Err(RepositoryError::Store(StoreFailure::Other));
        }
        let n: usize = self.stored.len();
        let (from, to) = page_bounds(n, query.limit, query.offset);
        let ghost newest_first = self.rows().reverse();
        let ghost shown = page(newest_first, query.limit as int, query.offset as int);
        let mut contents: Vec<Content> = Vec::new();
        let mut i: usize = from;
        while i < to
            invariant
                n == self.stored.len(),
                self.well_formed(),
                from <= i <= to <= n,
                newest_first == self.rows().reverse(),
                shown == newest_first.subrange(from as int, to as int),
                contents@.len() == i - from,
                forall|j: int|
                    0 <= j < i - from ==> self.references().shows(
                        #[trigger] contents@[j],
                        shown[j],
                    ),
            decreases to - i,
        {
            let row = &self.stored[n - 1 - i];
            assert(row@ == self.rows()[n - 1 - i]);
            assert(shown[i - from] == row@);
            match self.render(row) {
                Some(content) => {
                    contents.push(content);
                },
                None => {
                    return Err(RepositoryError::Store(StoreFailure::Other));
                },
            }
            i += 1;
        }
        proof {
            pages_are_newest_first(self.rows(), query.limit as int, query.offset as int);
        }
        Ok(contents)
    }

    /// Draws an identifier of version 7 and creates the content item
    /// under it. It succeeds exactly where the title keeps its rule, every
    /// identifier is read, no record has the identifier drawn, and the
    /// store has everything that the record refers to; it fails on the
    /// store's account only as a broken constraint.
    fn create(&mut self, data: CreateContent) -> (r: Result<Content, RepositoryError>)
        ensures
            exists|id: EntityId|
                {
                    &&& #[trigger] is_version_7(id.value)
                    &&& r is Ok <==> {
                        &&& data.violation() is None
                        &&& data.unreadable(parsed_create_ids(data)) is None
                        &&& !(record_ids(old(self).rows()).contains(id))
                        &&& old(self).references().cover(
                            data.record(id, parsed_create_ids(data), Timestamp { micros: 0 }),
                        )
                    }
                },
            r matches Err(RepositoryError::Store(failure)) ==> failure == StoreFailure::Constraint,
    {
        let id = EntityId::generate();
        let ghost before = self.rows();
        let ghost references = self.references();
        let r = self.create_with(id, data);
        assert({
            &&& is_version_7(id.value)
            &&& r is Ok <==> {
                &&& data.violation() is None
                &&& data.unreadable(parsed_create_ids(data)) is None
                &&& !(record_ids(before).contains(id))
                &&& references.cover(
                    data.record(id, parsed_create_ids(data), Timestamp { micros: 0 }),
                )
            }
        });
        r
    }

    /// Fails on the store's account only where the store does not have
    /// the category, the user or a tag that the update names. It succeeds
    /// exactly where the title keeps its rule, every identifier is read, a
    /// record has the identifier, and the store has everything that the
    /// record then refers to; what a record refers to does not depend on
    /// its times, so the contract asks for it at any time.
    fn update(&mut self, data: UpdateContent) -> (r: Result<Content, RepositoryError>)
        ensures
            r matches Err(RepositoryError::Store(failure)) ==> failure == StoreFailure::Constraint,
            r is Ok <==> {
                let ids = parsed_update_ids(data);
                let place = position(record_ids(old(self).rows()), ids.id->Some_0);
                &&& data.violation() is None
                &&& data.unreadable(ids) is None
                &&& place is Some
                &&& old(self).references().cover(
                    data.applied_to(old(self).rows()[place->Some_0], ids, Timestamp { micros: 0 }),
                )
            },
    {
        let ghost ids = parsed_update_ids(data);
        let ghost before = self.rows();
        if let Some(e) = data.validate() {
            return Err(RepositoryError::Validation(e));
        }
        let key = match EntityId::parse(data.id.as_str()) {
            Some(key) => key,
            None => { return Err(RepositoryError::InvalidId(IdField::Id)); },
        };
        let category = match &data.category_id {
            Some(text) => match EntityId::parse(text.as_str()) {
                Some(category) => Some(category),
                None => { return Err(RepositoryError::InvalidId(IdField::Category)); },
            },
            None => None,
        };
        let updated_by = match EntityId::parse(data.updated_by_id.as_str()) {
            Some(user) => user,
            None => { return Err(RepositoryError::InvalidId(IdField::UpdatedBy)); },
        };
        let tags = match &data.tag_ids {
            Some(texts) => match parse_all(texts) {
                Some(tags) => Some(without_repetitions(&tags)),
                None => { return Err(RepositoryError::InvalidId(IdField::Tag)); },
            },
            None => None,
        };
        proof {
            assert(keys(self.stored@) =~= record_ids(self.rows()));
        }
        let place = match find(&self.stored, key) {
            Some(place) => place,
            None => { return Err(RepositoryError::NotFound); },
        };
        let now = self.tick();
        let UpdateContent {
            id: _,
            title,
            category_id: _,
            fields,
            tag_ids: _,
            status,
            updated_by_id: _,
        } = data;
        let stored = &self.stored[place];
        let row = StoredContent {
            id: stored.id,
            title: match title {
                Some(text) => text,
                None => stored.title.clone(),
            },
            category: match category {
                Some(category) => category,
                None => stored.category,
            },
            status: match status {
                Some(status) => status,
                None => stored.status,
            },
            fields: match fields {
                Some(list) => list,
                None => copy_of_fields(&stored.fields),
            },
            tags: match tags {
                Some(list) => list,
                None => copy_of_ids(&stored.tags),
            },
            created_by: stored.created_by,
            updated_by,
            published_at: stored.published_at,
            created_at: stored.created_at,
            updated_at: now,
        };
        assert(row@ == data.applied_to(before[place as int], ids, now));
        assert(self.references().cover(row@) == self.references().cover(
            data.applied_to(before[place as int], ids, Timestamp { micros: 0 }),
        ));
        let content = match self.render(&row) {
            Some(content) => content,
            None => { return Err(RepositoryError::Store(StoreFailure::Constraint)); },
        };
        self.stored.remove(place);
        self.stored.insert(place, row);
        proof {
            let changed = data.applied_to(before[place as int], ids, now);
            assert(self.rows() =~= before.update(place as int, changed));
            assert(record_ids(self.rows()) =~= record_ids(before));
        }
        Ok(content)
    }

    /// Never fails on the store's account.
    fn delete(&mut self, id: String) -> (r: Result<(), RepositoryError>)
        ensures
            r is Err ==> !(r->Err_0 is Store),
    {
        let key = match EntityId::parse(id.as_str()) {
            Some(key) => key,
            None => { return Err(RepositoryError::InvalidId(IdField::Id)); },
        };
        proof {
            assert(keys(self.stored@) =~= record_ids(self.rows()));
        }
        let place = match find(&self.stored, key) {
            Some(place) => place,
            None => { return Err(RepositoryError::NotFound); },
        };
        let ghost before = self.rows();
        self.stored.remove(place);
        proof {
            assert(self.rows() =~= before.remove(place as int));
            assert(record_ids(self.rows()) =~= record_ids(before).remove(place as int));
            lemma_remove_keeps_distinct(record_ids(before), place as int);
            assert forall|i: int| 0 <= i < self.rows().len() implies self.references().cover(
                #[trigger] self.rows()[i],
            ) by {
                let a = if i < place { i } else { i + 1 };
                assert(self.rows()[i] == before[a]);
            }
        }
        Ok(())
    }
}

/// A copy of identifiers.
pub fn copy_of_ids(ids: &Vec<EntityId>) -> (r: Vec<EntityId>)
    ensures
        r@ == ids@,
{
    let mut copies: Vec<EntityId> = Vec::new();
    let mut i: usize = 0;
    while i < ids.len()
        invariant
            i <= ids.len(),
            copies@ == ids@.take(i as int),
        decreases ids.len() - i,
    {
        copies.push(ids[i]);
        assert(copies@ =~= ids@.take(i + 1));
        i += 1;
    }
    assert(ids@.take(ids.len() as int) =~= ids@);
    copies
}

} // verus!
