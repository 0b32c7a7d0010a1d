//! Category rows and the statements that read and write them.

use vstd::prelude::*;
use crate::database::statement::{
    binds_view, keyed_model, keyed_statement, optional_text, page_model, page_statement,
    planned_view, update_model, Assignment, BindModel, BindValue, Statement, StatementModel,
    UpdateBuilder,
};
use crate::error::{IdField, RepositoryError, ValidationError};
use crate::ident::{canonical_text, is_version_7, EntityId};
use crate::memory::keyed::Keyed;
use crate::model::category::Category;
use crate::repository::category::{CreateCategory, GetCategoryQuery, UpdateCategory};
use crate::text::text_or_empty;

verus! {

/// A row of the category table.
#[derive(Debug, Clone)]
pub struct CategoryRow {
    pub id: EntityId,
    pub name: String,
    pub api_identifier: String,
    pub description: String,
}

/// What contracts say of a category row.
pub struct CategoryRecord {
    pub id: EntityId,
    pub name: Seq<char>,
    pub api_identifier: Seq<char>,
    pub description: Seq<char>,
}

impl View for CategoryRow {
    type V = CategoryRecord;

    open spec fn view(&self) -> CategoryRecord {
        CategoryRecord {
            id: self.id,
            name: self.name@,
            api_identifier: self.api_identifier@,
            description: self.description@,
        }
    }
}

impl Keyed for CategoryRow {
    open spec fn key(&self) -> EntityId {
        self.id
    }

    fn id(&self) -> (r: EntityId) {
        self.id
    }
}

/// Whether `category` is the category that a row stands for: the
/// identifier in its canonical form, the other columns as they are, the
/// description always present.
pub open spec fn shows(category: Category, record: CategoryRecord) -> bool {
    &&& category.id@ == canonical_text(record.id.value)
    &&& category.name@ == record.name
    &&& category.api_identifier@ == record.api_identifier
    &&& category.description is Some
    &&& category.description->Some_0@ == record.description
}

impl CategoryRow {
    /// The category that the row stands for.
    pub fn to_category(&self) -> (r: Category)
        ensures
            shows(r, self@),
    {
        Category {
            id: self.id.to_text(),
            name: self.name.clone(),
            api_identifier: self.api_identifier.clone(),
            description: Some(self.description.clone()),
        }
    }

    /// The category that the row stands for: the identifier in its
    /// canonical form, the other columns as they are.
    pub fn into_category(self) -> (r: Category)
        ensures
            shows(r, self@),
            r.name == self.name,
            r.api_identifier == self.api_identifier,
            r.description == Some(self.description),
    {
        Category {
            id: self.id.to_text(),
            name: self.name,
            api_identifier: self.api_identifier,
            description: Some(self.description),
        }
    }
}

/// Reads one page of categories, ordered by identifier.
pub const SELECT_PAGE: &'static str = "SELECT * FROM category ORDER BY id LIMIT $1 OFFSET $2";

/// Inserts one category and returns its row.
pub const INSERT: &'static str =
    "INSERT INTO category (id, name, api_identifier, description) VALUES ($1, $2, $3, $4) RETURNING *";

/// Deletes the category with an identifier.
pub const DELETE: &'static str = "DELETE FROM category WHERE id = $1";

/// How the update of a category begins.
pub const UPDATE_HEAD: &'static str = "UPDATE category SET ";

/// What follows the assignments of an update, up to the placeholder of the
/// identifier.
pub const UPDATE_CONDITION: &'static str = " WHERE id = ";

/// How the update of a category ends.
pub const UPDATE_TAIL: &'static str = " RETURNING *";

/// The statement that reads the page `query` asks for.
pub fn get_statement(query: GetCategoryQuery) -> (r: Statement)
    ensures
        r@ == page_model(SELECT_PAGE@, query.limit, query.offset),
{
    page_statement(SELECT_PAGE, query.limit, query.offset)
}

/// What `create_statement` returns: the refusal of fields that break a
/// rule, or the insertion of the fields under `id`.
pub open spec fn planned_create(id: EntityId, data: CreateCategory) -> Result<
    StatementModel,
    RepositoryError,
> {
    match data.violation() {
        Some(e) => Err(RepositoryError::Validation(e)),
        None => Ok(
            StatementModel {
                sql: INSERT@,
                binds: seq![
                    BindModel::Id(id),
                    BindModel::Text(data.name@),
                    BindModel::Text(data.api_identifier@),
                    BindModel::Text(text_or_empty(data.description)),
                ],
            },
        ),
    }
}

/// The statement that stores a new category under `id`. Fields that break
/// a rule of the model are refused, and nothing is to be run.
pub fn create_statement(id: EntityId, data: CreateCategory) -> (r: Result<
    Statement,
    RepositoryError,
>)
    ensures
        planned_view(r) == planned_create(id, data),
{
    if let Some(e) = data.validate() {
        return Err(RepositoryError::Validation(e));
    }
    let CreateCategory { name, api_identifier, description } = data;
    let description = match description {
        Some(text) => text,
        None => String::new(),
    };
    let mut binds: Vec<BindValue> = Vec::new();
    binds.push(BindValue::Id(id));
    binds.push(BindValue::Text(name));
    binds.push(BindValue::Text(api_identifier));
    binds.push(BindValue::Text(description));
    assert(binds_view(binds@) =~= planned_create(id, data)->Ok_0.binds);
    Ok(Statement::new(INSERT, binds))
}

/// The statement that stores a new category under a fresh identifier:
/// what `create_statement` returns for some identifier of version 7.
pub fn create(data: CreateCategory) -> (r: Result<Statement, RepositoryError>)
    ensures
        exists|id: EntityId|
            is_version_7(id.value) && planned_view(r) == #[trigger] planned_create(id, data),
{
    let id = EntityId::generate();
    create_statement(id, data)
}

/// The assignments of a category update: the fields that are present, in
/// the order name, API identifier, description.
pub open spec fn update_assignments(data: UpdateCategory) -> Seq<Assignment> {
    optional_text("name"@, data.name) + optional_text("api_identifier"@, data.api_identifier)
        + optional_text("description"@, data.description)
}

/// What `update_statement` returns: the refusal of a value that breaks a
/// rule, of an update that changes nothing, or of an identifier that could
/// not be read, in this order; else the update of the fields that are
/// present.
pub open spec fn planned_update(data: UpdateCategory, id: Option<EntityId>) -> Result<
    StatementModel,
    RepositoryError,
> {
    if data.violation() is Some {
        Err(RepositoryError::Validation(data.violation()->Some_0))
    } else if update_assignments(data).len() == 0 {
        Err(RepositoryError::Validation(ValidationError::NothingToUpdate))
    } else {
        match id {
            None => Err(RepositoryError::InvalidId(IdField::Id)),
            Some(id) => Ok(
                update_model(
                    UPDATE_HEAD@,
                    update_assignments(data),
                    UPDATE_CONDITION@,
                    BindModel::Id(id),
                    UPDATE_TAIL@,
                ),
            ),
        }
    }
}

/// An update is refused or planned with at least one assignment and the
/// identifier bound last: it is never planned without an assignment.
pub proof fn update_is_never_empty(data: UpdateCategory, id: Option<EntityId>)
    ensures
        planned_update(data, id) matches Ok(statement) ==> {
            &&& update_assignments(data).len() >= 1
            &&& statement.binds.len() == update_assignments(data).len() + 1
            &&& id is Some
            &&& statement.binds.last() == BindModel::Id(id->Some_0)
        },
{
}

/// The statement that changes the fields of a category that `data` names
/// and returns the row as it then stands, where `id` is what was read from
/// the identifier of `data`.
pub fn update_statement(data: UpdateCategory, id: Option<EntityId>) -> (r: Result<
    Statement,
    RepositoryError,
>)
    ensures
        planned_view(r) == planned_update(data, id),
{
    if let Some(e) = data.validate() {
        return Err(RepositoryError::Validation(e));
    }
    let UpdateCategory { id: _, name, api_identifier, description } = data;
    let builder = UpdateBuilder::new(UPDATE_HEAD);
    let builder = builder.set_text("name", name);
    let builder = builder.set_text("api_identifier", api_identifier);
    let builder = builder.set_text("description", description);
    assert(builder.assignments() =~= update_assignments(data));
    if builder.is_empty() {
        return Err(RepositoryError::Validation(ValidationError::NothingToUpdate));
    }
    let key = match id {
        Some(id) => id,
        None => { return Err(RepositoryError::InvalidId(IdField::Id)); },
    };
    match builder.finish(UPDATE_CONDITION, BindValue::Id(key), UPDATE_TAIL) {
        Ok(statement) => Ok(statement),
        Err(e) => Err(RepositoryError::Validation(e)),
    }
}

/// The statement that changes a category, with the identifier read from
/// the text that `data` holds.
pub fn update(data: UpdateCategory) -> (r: Result<Statement, RepositoryError>)
    ensures
        planned_view(r) == planned_update(data, EntityId::parsed(data.id@)),
{
    let id = EntityId::parse(data.id.as_str());
    update_statement(data, id)
}

/// The statement that deletes the category whose identifier is written in
/// `id`.
pub fn delete(id: &str) -> (r: Result<Statement, RepositoryError>)
    ensures
        planned_view(r) == keyed_model(DELETE@, EntityId::parsed(id@)),
{
    keyed_statement(DELETE, EntityId::parse(id))
}

} // verus!
