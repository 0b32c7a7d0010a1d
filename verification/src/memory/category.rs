//! A store of categories that lives in memory.

use vstd::prelude::*;
use crate::database::category_repository::{shows, CategoryRecord, CategoryRow};
use crate::error::{IdField, RepositoryError, StoreFailure, ValidationError};
use crate::ident::{
    ascending, is_version_7, lemma_ascending_is_distinct, lemma_insert_keeps_ascending,
    lemma_part_is_ascending, lemma_position, lemma_remove_keeps_ascending, rank, EntityId,
};
use crate::memory::keyed::{find, keys, place_for};
use crate::model::category::Category;
use crate::repository::category::{
    creation, record_ids, CategoryRepository, CreateCategory, GetCategoryQuery, UpdateCategory,
};
use crate::repository::page::{page, page_bounds};

verus! {

/// What contracts say of category rows, in order.
pub open spec fn records(rows: Seq<CategoryRow>) -> Seq<CategoryRecord> {
    Seq::new(rows.len(), |i: int| rows[i]@)
}

/// Categories kept in memory, in ascending order of their identifiers.
pub struct MemoryCategoryRepository {
    stored: Vec<CategoryRow>,
}

impl MemoryCategoryRepository {
    /// A store without categories.
    pub fn new() -> (r: MemoryCategoryRepository)
        ensures
            r.well_formed(),
            r.rows() == Seq::<CategoryRecord>::empty(),
    {
        let r = MemoryCategoryRepository { stored: Vec::new() };
        assert(r.rows() =~= Seq::<CategoryRecord>::empty());
        r
    }

    /// Creates a category under `id`. Fields that break a rule are
    /// refused; an identifier that a row already has fails as a broken
    /// constraint; else the row is put at its place among the identifiers,
    /// and the answer is its
    /// category.
    pub fn create_with(&mut self, id: EntityId, data: CreateCategory) -> (r: Result<
        Category,
        RepositoryError,
    >)
        requires
            old(self).well_formed(),
        ensures
            final(self).well_formed(),
            creation(old(self).rows(), data, r, final(self).rows()),
            match r {
                Ok(category) => final(self).rows() == old(self).rows().insert(
                    rank(record_ids(old(self).rows()), id),
                    data.record(id),
                )
                    && shows(category, data.record(id)),
                Err(e) => e == (if data.violation() is Some {
                    RepositoryError::Validation(data.violation()->Some_0)
                } else {
                    RepositoryError::Store(StoreFailure::Constraint)
                }),
            },
            r is Ok <==> data.violation() is None && !record_ids(old(self).rows()).contains(id),
    {
        if let Some(e) = data.validate() {
            return Err(RepositoryError::Validation(e));
        }
        proof {
            lemma_position(keys(self.stored@), id);
            assert(keys(self.stored@) =~= record_ids(self.rows()));
        }
        if find(&self.stored, id).is_some() {
            return Err(RepositoryError::Store(StoreFailure::Constraint));
        }
        let CreateCategory { name, api_identifier, description } = data;
        let description = match description {
            Some(text) => text,
            None => String::new(),
        };
        let row = CategoryRow { id, name, api_identifier, description };
        let category = row.to_category();
        let ghost before = self.rows();
        let place = place_for(&self.stored, id);
        self.stored.insert(place, row);
        proof {
            assert(self.rows() =~= before.insert(place as int, data.record(id)));
            assert(record_ids(self.rows()) =~= record_ids(before).insert(place as int, id));
            lemma_insert_keeps_ascending(record_ids(before), id);
        }
        Ok(category)
    }
}

impl CategoryRepository for MemoryCategoryRepository {
    closed spec fn rows(&self) -> Seq<CategoryRecord> {
        records(self.stored@)
    }

    closed spec fn well_formed(&self) -> bool {
        ascending(record_ids(self.rows()))
    }

    proof fn identifiers_are_ascending(&self) {
        lemma_ascending_is_distinct(record_ids(self.rows()));
    }

    /// Never fails but on a negative limit or offset.
    fn get(&self, query: GetCategoryQuery) -> (r: Result<Vec<Category>, RepositoryError>)
        ensures
            r is Ok <==> query.limit >= 0 && query.offset >= 0,
    {
        if query.limit < 0 || query.offset < 0 {
            return Err(RepositoryError::Store(StoreFailure::Other));
        }
        let (from, to) = page_bounds(self.stored.len(), query.limit, query.offset);
        let ghost shown = page(self.rows(), query.limit as int, query.offset as int);
        let mut categories: Vec<Category> = Vec::new();
        let mut i: usize = from;
        while i < to
            invariant
                from <= i <= to <= self.stored.len(),
                shown == self.rows().subrange(from as int, to as int),
                categories@.len() == i - from,
                forall|j: int| 0 <= j < i - from ==> shows(#[trigger] categories@[j], shown[j]),
            decreases to - i,
        {
            categories.push(self.stored[i].to_category());
            i += 1;
        }
        proof {
            assert(record_ids(shown) =~= record_ids(self.rows()).subrange(from as int, to as int));
            lemma_part_is_ascending(record_ids(self.rows()), from as int, to as int);
        }
        Ok(categories)
    }

    /// Draws an identifier of version 7 and creates the category under it. It
    /// succeeds exactly where no field breaks a rule and no row has the
    /// identifier drawn, and then the row stands under that identifier; it
    /// fails on the store's account only where a row has the identifier
    /// already, as a broken constraint.
    fn create(&mut self, data: CreateCategory) -> (r: Result<Category, RepositoryError>)
        ensures
            exists|id: EntityId|
                {
                    &&& #[trigger] is_version_7(id.value)
                    &&& r is Ok <==> data.violation() is None && !(record_ids(
                        old(self).rows(),
                    ).contains(id))
                    &&& r is Ok ==> final(self).rows() == old(self).rows().insert(
                        rank(record_ids(old(self).rows()), id),
                        data.record(id),
                    )
                },
            r matches Err(RepositoryError::Store(failure)) ==> failure == StoreFailure::Constraint,
    {
        let id = EntityId::generate();
        let ghost before = self.rows();
        let r = self.create_with(id, data);
        assert({
            &&& is_version_7(id.value)
            &&& r is Ok <==> data.violation() is None && !(record_ids(before).contains(id))
        });
        r
    }

    /// Never fails on the store's account.
    fn update(&mut self, data: UpdateCategory) -> (r: Result<Category, RepositoryError>)
        ensures
            r is Err ==> !(r->Err_0 is Store),
    {
        if let Some(e) = data.validate() {
            return Err(RepositoryError::Validation(e));
        }
        let UpdateCategory { id, name, api_identifier, description } = data;
        if name.is_none() && api_identifier.is_none() && description.is_none() {
            return Err(RepositoryError::Validation(ValidationError::NothingToUpdate));
        }
        let key = match EntityId::parse(id.as_str()) {
            Some(key) => key,
            None => { return Err(RepositoryError::InvalidId(IdField::Id)); },
        };
        proof {
            assert(keys(self.stored@) =~= record_ids(self.rows()));
        }
        let place = match find(&self.stored, key) {
            Some(place) => place,
            None => { return Err(RepositoryError::NotFound); },
        };
        let ghost before = self.rows();
        let mut row = self.stored.remove(place);
        assert(row@ == before[place as int]);
        if let Some(text) = name {
            row.name = text;
        }
        if let Some(text) = api_identifier {
            row.api_identifier = text;
        }
        if let Some(text) = description {
            row.description = text;
        }
        assert(row@ == data.applied_to(before[place as int]));
        let category = row.to_category();
        self.stored.insert(place, row);
        proof {
            let now = data.applied_to(before[place as int]);
            assert(self.rows() =~= before.update(place as int, now));
            assert(record_ids(self.rows()) =~= record_ids(before));
        }
        Ok(category)
    }

    /// Never fails on the store's account.
    fn delete(&mut self, id: String) -> (r: Result<(), RepositoryError>)
        ensures
            r is Err ==> !(r->Err_0 is Store),
    {
        let key = match EntityId::parse(id.as_str()) {
            Some(key) => key,
            None => { return Err(RepositoryError::InvalidId(IdField::Id)); },
        };
        proof {
            assert(keys(self.stored@) =~= record_ids(self.rows()));
        }
        let place = match find(&self.stored, key) {
            Some(place) => place,
            None => { return Err(RepositoryError::NotFound); },
        };
        let ghost before = self.rows();
        self.stored.remove(place);
        proof {
            assert(self.rows() =~= before.remove(place as int));
            assert(record_ids(self.rows()) =~= record_ids(before).remove(place as int));
            lemma_remove_keeps_ascending(record_ids(before), place as int);
        }
        Ok(())
    }
}

} // verus!
