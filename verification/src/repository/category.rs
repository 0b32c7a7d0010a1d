//! What can be asked of the store about categories.

use vstd::prelude::*;
use crate::database::category_repository::{shows, CategoryRecord};
use crate::error::{IdField, RepositoryError, ValidationError};
use crate::ident::{ascending, lemma_position, position, rank, EntityId};
use crate::model::category::{category_violation, Category};
use crate::repository::page::page;
use crate::text::{replaced, text_or_empty};
use crate::validation::{
    check_api_identifier, check_name, check_optional_api_identifier, check_optional_description,
    check_optional_name, first_of, optional_api_identifier_violation,
    optional_description_violation, optional_name_violation, optional_view, API_IDENTIFIER_MAX,
    DESCRIPTION_MAX, NAME_MAX,
};

verus! {

/// A page of categories: at most `limit`, after skipping `offset`.
#[derive(Debug, Clone, Copy)]
pub struct GetCategoryQuery {
    pub limit: i32,
    pub offset: i32,
}

impl GetCategoryQuery {
    pub fn new(limit: i32, offset: i32) -> (r: GetCategoryQuery)
        ensures
            r == (GetCategoryQuery { limit, offset }),
    {
        GetCategoryQuery { limit, offset }
    }
}

impl Default for GetCategoryQuery {
    /// The first hundred.
    fn default() -> (r: GetCategoryQuery)
        ensures
            r == (GetCategoryQuery { limit: 100, offset: 0 }),
    {
        GetCategoryQuery { limit: 100, offset: 0 }
    }
}

/// The fields of a category to create.
#[derive(Debug, Clone)]
pub struct CreateCategory {
    pub name: String,
    pub api_identifier: String,
    pub description: Option<String>,
}

impl CreateCategory {
    pub fn new(name: String, api_identifier: String, description: Option<String>) -> (r:
        CreateCategory)
        ensures
            r == (CreateCategory { name, api_identifier, description }),
    {
        CreateCategory { name, api_identifier, description }
    }

    /// The first rule of a category that the fields break.
    pub open spec fn violation(&self) -> Option<ValidationError> {
        category_violation(self.name@, self.api_identifier@, optional_view(self.description))
    }

    /// Holds the fields against the rules of a category.
    pub fn validate(&self) -> (r: Option<ValidationError>)
        ensures
            r == self.violation(),
    {
        if let Some(e) = check_name(self.name.as_str(), true) {
            return Some(e);
        }
        if let Some(e) = check_api_identifier(self.api_identifier.as_str(), true) {
            return Some(e);
        }
        check_optional_description(&self.description)
    }
}

/// The changes to make to a category: an absent field stays as it is
/// stored.
#[derive(Debug, Clone)]
pub struct UpdateCategory {
    pub id: String,
    pub name: Option<String>,
    pub api_identifier: Option<String>,
    pub description: Option<String>,
}

impl UpdateCategory {
    pub fn new(
        id: String,
        name: Option<String>,
        api_identifier: Option<String>,
        description: Option<String>,
    ) -> (r: UpdateCategory)
        ensures
            r == (UpdateCategory { id, name, api_identifier, description }),
    {
        UpdateCategory { id, name, api_identifier, description }
    }

    /// The first rule of a category that a new value breaks.
    pub open spec fn violation(&self) -> Option<ValidationError> {
        first_of(
            optional_name_violation(optional_view(self.name), true),
            first_of(
                optional_api_identifier_violation(optional_view(self.api_identifier), true),
                optional_description_violation(optional_view(self.description)),
            ),
        )
    }

    /// Holds the new values against the rules of a category.
    pub fn validate(&self) -> (r: Option<ValidationError>)
        ensures
            r == self.violation(),
    {
        if let Some(e) = check_optional_name(&self.name, true) {
            return Some(e);
        }
        if let Some(e) = check_optional_api_identifier(&self.api_identifier, true) {
            return Some(e);
        }
        check_optional_description(&self.description)
    }
}

/// The identifiers of category rows, in order.
pub open spec fn record_ids(rows: Seq<CategoryRecord>) -> Seq<EntityId> {
    Seq::new(rows.len(), |i: int| rows[i].id)
}

impl CreateCategory {
    /// A field that is longer than its bound breaks a rule.
    pub proof fn over_long_is_refused(self)
        ensures
            self.name@.len() > NAME_MAX ==> self.violation() is Some,
            self.api_identifier@.len() > API_IDENTIFIER_MAX ==> self.violation() is Some,
            self.description is Some && self.description->Some_0@.len() > DESCRIPTION_MAX
                ==> self.violation() is Some,
    {
    }

    /// The row that is stored for the fields under `id`.
    pub open spec fn record(self, id: EntityId) -> CategoryRecord {
        CategoryRecord {
            id,
            name: self.name@,
            api_identifier: self.api_identifier@,
            description: text_or_empty(self.description),
        }
    }
}

impl UpdateCategory {
    /// A new value that is longer than its bound breaks a rule.
    pub proof fn over_long_is_refused(self)
        ensures
            self.name is Some && self.name->Some_0@.len() > NAME_MAX ==> self.violation() is Some,
            self.api_identifier is Some && self.api_identifier->Some_0@.len() > API_IDENTIFIER_MAX
                ==> self.violation() is Some,
            self.description is Some && self.description->Some_0@.len() > DESCRIPTION_MAX
                ==> self.violation() is Some,
    {
    }

    /// Whether the update names no field to change.
    pub open spec fn changes_nothing(self) -> bool {
        self.name is None && self.api_identifier is None && self.description is None
    }

    /// The row that the update makes of a stored row: each field that is
    /// present takes the place of the stored one, each absent field leaves
    /// the stored one as it is.
    pub open spec fn applied_to(self, stored: CategoryRecord) -> CategoryRecord {
        CategoryRecord {
            id: stored.id,
            name: replaced(stored.name, self.name),
            api_identifier: replaced(stored.api_identifier, self.api_identifier),
            description: replaced(stored.description, self.description),
        }
    }

    /// Applying an update a second time changes nothing more.
    pub proof fn applying_twice_is_applying_once(self, stored: CategoryRecord)
        ensures
            self.applied_to(self.applied_to(stored)) == self.applied_to(stored),
    {
    }
}

/// What a listing may answer, given the rows of the store: a failure of
/// the store, or the categories of the rows that the page shows, in
/// order. A page cannot be asked for with a negative limit or offset.
pub open spec fn listing(
    rows: Seq<CategoryRecord>,
    query: GetCategoryQuery,
    answer: Result<Vec<Category>, RepositoryError>,
) -> bool {
    match answer {
        Ok(categories) => {
            let shown = page(rows, query.limit as int, query.offset as int);
            &&& query.limit >= 0
            &&& query.offset >= 0
            &&& categories@.len() == shown.len()
            &&& forall|i: int| 0 <= i < shown.len() ==> shows(#[trigger] categories@[i], shown[i])
            &&& ascending(record_ids(shown))
        },
        Err(e) => e is Store,
    }
}

/// What a creation may answer and leave behind, given the rows of the
/// store before it. Fields that break a rule are refused before the store
/// is touched. Else the store fails and nothing changes, or a row with the
/// fields is added under an identifier that no row had, and the answer is
/// its category.
pub open spec fn creation(
    before: Seq<CategoryRecord>,
    data: CreateCategory,
    answer: Result<Category, RepositoryError>,
    after: Seq<CategoryRecord>,
) -> bool {
    if data.violation() is Some {
        answer == Err::<Category, RepositoryError>(
            RepositoryError::Validation(data.violation()->Some_0),
        ) && after == before
    } else {
        match answer {
            Ok(category) => exists|id: EntityId|
                {
                    &&& !record_ids(before).contains(id)
                    &&& after == before.insert(
                        rank(record_ids(before), id),
                        #[trigger] data.record(id),
                    )
                    &&& shows(category, data.record(id))
                },
            Err(e) => e is Store && after == before,
        }
    }
}

/// What an update may answer and leave behind, given the rows of the
/// store before it and what was read from the identifier. In this order:
/// a value that breaks a rule, an update that changes nothing, and an
/// identifier that could not be read are refused before the store is
/// touched. Else the store fails and nothing changes, or no row has the
/// identifier and nothing changes, or the row with the identifier becomes
/// what the update makes of it, and the answer is its category.
pub open spec fn change(
    before: Seq<CategoryRecord>,
    data: UpdateCategory,
    id: Option<EntityId>,
    answer: Result<Category, RepositoryError>,
    after: Seq<CategoryRecord>,
) -> bool {
    if data.violation() is Some {
        answer == Err::<Category, RepositoryError>(
            RepositoryError::Validation(data.violation()->Some_0),
        ) && after == before
    } else if data.changes_nothing() {
        answer == Err::<Category, RepositoryError>(
            RepositoryError::Validation(ValidationError::NothingToUpdate),
        ) && after == before
    } else if id is None {
        answer == Err::<Category, RepositoryError>(RepositoryError::InvalidId(IdField::Id))
            && after == before
    } else {
        let place = position(record_ids(before), id->Some_0);
        match answer {
            Ok(category) => {
                &&& place is Some
                &&& after == before.update(place->Some_0, data.applied_to(before[place->Some_0]))
                &&& shows(category, data.applied_to(before[place->Some_0]))
            },
            Err(e) => after == before && (e is Store || (e == RepositoryError::NotFound
                && place is None)),
        }
    }
}

/// What a deletion may answer and leave behind, given the rows of the
/// store before it and what was read from the identifier. An identifier
/// that could not be read is refused before the store is touched. Else
/// the store fails and nothing changes, or no row has the identifier and
/// nothing changes, or the row with the identifier is gone and every other
/// row stays where it was.
pub open spec fn removal(
    before: Seq<CategoryRecord>,
    id: Option<EntityId>,
    answer: Result<(), RepositoryError>,
    after: Seq<CategoryRecord>,
) -> bool {
    if id is None {
        answer == Err::<(), RepositoryError>(RepositoryError::InvalidId(IdField::Id)) && after
            == before
    } else {
        let place = position(record_ids(before), id->Some_0);
        match answer {
            Ok(_) => place is Some && after == before.remove(place->Some_0),
            Err(e) => after == before && (e is Store || (e == RepositoryError::NotFound
                && place is None)),
        }
    }
}

/// After a category was deleted, no row has its identifier, so no listing
/// shows it.
pub proof fn deleted_is_gone(
    before: Seq<CategoryRecord>,
    id: EntityId,
    after: Seq<CategoryRecord>,
    limit: int,
    offset: int,
)
    requires
        record_ids(before).no_duplicates(),
        removal(before, Some(id), Ok(()), after),
        0 <= limit,
        0 <= offset,
    ensures
        !record_ids(after).contains(id),
        forall|i: int|
            0 <= i < page(after, limit, offset).len() ==> (#[trigger] page(
                after,
                limit,
                offset,
            )[i]).id != id,
{
    let ids = record_ids(before);
    lemma_position(ids, id);
    let place = position(ids, id)->Some_0;
    assert forall|j: int| 0 <= j < after.len() implies (#[trigger] after[j]).id != id by {
        if j < place {
            assert(after[j] == before[j]);
            assert(ids[j] == before[j].id);
        } else {
            assert(after[j] == before[j + 1]);
            assert(ids[j + 1] == before[j + 1].id);
            assert(ids[place] == id);
        }
    }
    assert(!record_ids(after).contains(id)) by {
        if record_ids(after).contains(id) {
            let j = choose|j: int| 0 <= j < after.len() && record_ids(after)[j] == id;
            assert(after[j].id == id);
        }
    }
}

/// An update that succeeded and is issued once more leaves the rows as
/// the first left them, whatever the store answers the second time.
pub proof fn second_update_changes_nothing(
    before: Seq<CategoryRecord>,
    data: UpdateCategory,
    id: Option<EntityId>,
    first: Category,
    between: Seq<CategoryRecord>,
    second: Result<Category, RepositoryError>,
    after: Seq<CategoryRecord>,
)
    requires
        record_ids(before).no_duplicates(),
        change(before, data, id, Ok(first), between),
        change(between, data, id, second, after),
    ensures
        after == between,
{
    if second is Ok {
        let ids = record_ids(before);
        let place = position(ids, id->Some_0)->Some_0;
        lemma_position(ids, id->Some_0);
        assert(record_ids(between) =~= ids);
        data.applying_twice_is_applying_once(before[place]);
        assert(after =~= between);
    }
}

/// A store of categories.
pub trait CategoryRepository {
    /// The rows of the store, in ascending order of their identifiers.
    spec fn rows(&self) -> Seq<CategoryRecord>;

    /// Whether the store is in order; then its rows stand in ascending
    /// order of their identifiers, and no two have the same.
    spec fn well_formed(&self) -> bool;

    /// The rows of a store in order stand in ascending order of their
    /// identifiers, and no two have the same.
    proof fn identifiers_are_ascending(&self)
        requires
            self.well_formed(),
        ensures
            ascending(record_ids(self.rows())),
            record_ids(self.rows()).no_duplicates(),
    ;

    /// Lists the categories of one page.
    fn get(&self, query: GetCategoryQuery) -> (r: Result<Vec<Category>, RepositoryError>)
        requires
            self.well_formed(),
        ensures
            listing(self.rows(), query, r),
    ;

    /// Creates a category under a fresh identifier.
    fn create(&mut self, data: CreateCategory) -> (r: Result<Category, RepositoryError>)
        requires
            old(self).well_formed(),
        ensures
            final(self).well_formed(),
            creation(old(self).rows(), data, r, final(self).rows()),
    ;

    /// Changes the fields of a category that the update names.
    fn update(&mut self, data: UpdateCategory) -> (r: Result<Category, RepositoryError>)
        requires
            old(self).well_formed(),
        ensures
            final(self).well_formed(),
            change(old(self).rows(), data, EntityId::parsed(data.id@), r, final(self).rows()),
    ;

    /// Deletes the category whose identifier is written in `id`.
    fn delete(&mut self, id: String) -> (r: Result<(), RepositoryError>)
        requires
            old(self).well_formed(),
        ensures
            final(self).well_formed(),
            removal(old(self).rows(), EntityId::parsed(id@), r, final(self).rows()),
    ;
}

} // verus!
