//! Tag rows and the statements that read and write them.

use vstd::prelude::*;
use crate::database::statement::{
    binds_view, keyed_model, keyed_statement, optional_text, page_model, page_statement,
    planned_view, update_model, Assignment, BindModel, BindValue, Statement, StatementModel,
    UpdateBuilder,
};
use crate::error::{IdField, RepositoryError, ValidationError};
use crate::ident::{canonical_text, is_version_7, EntityId};
use crate::memory::keyed::Keyed;
use crate::model::tag::Tag;
use crate::repository::tag::{CreateTag, GetTagQuery, UpdateTag};
use crate::text::text_or_empty;

verus! {

/// A row of the tags table.
#[derive(Debug, Clone)]
pub struct TagRow {
    pub id: EntityId,
    pub name: String,
    pub description: String,
}

/// What contracts say of a tag row.
pub struct TagRecord {
    pub id: EntityId,
    pub name: Seq<char>,
    pub description: Seq<char>,
}

impl View for TagRow {
    type V = TagRecord;

    open spec fn view(&self) -> TagRecord {
        TagRecord { id: self.id, name: self.name@, description: self.description@ }
    }
}

impl Keyed for TagRow {
    open spec fn key(&self) -> EntityId {
        self.id
    }

    fn id(&self) -> (r: EntityId) {
        self.id
    }
}

/// Whether `tag` is the tag that a row stands for: the identifier in its
/// canonical form, the other columns as they are.
pub open spec fn shows(tag: Tag, record: TagRecord) -> bool {
    &&& tag.id@ == canonical_text(record.id.value)
    &&& tag.name@ == record.name
    &&& tag.description@ == record.description
}

impl TagRow {
    /// The tag that the row stands for.
    pub fn to_tag(&self) -> (r: Tag)
        ensures
            shows(r, self@),
    {
        Tag { id: self.id.to_text(), name: self.name.clone(), description: self.description.clone() }
    }

    /// The tag that the row stands for: the identifier in its canonical
    /// form, the other columns as they are.
    pub fn into_tag(self) -> (r: Tag)
        ensures
            shows(r, self@),
            r.name == self.name,
            r.description == self.description,
    {
        Tag { id: self.id.to_text(), name: self.name, description: self.description }
    }
}

/// Reads one page of tags, ordered by identifier.
pub const SELECT_PAGE: &'static str = "SELECT * FROM tags ORDER BY id LIMIT $1 OFFSET $2";

/// Inserts one tag and returns its row.
pub const INSERT: &'static str =
    "INSERT INTO tags (id, name, description) VALUES ($1, $2, $3) RETURNING *";

/// Deletes the tag with an identifier.
pub const DELETE: &'static str = "DELETE FROM tags WHERE id = $1";

/// How the update of a tag begins.
pub const UPDATE_HEAD: &'static str = "UPDATE tags SET ";

/// What follows the assignments of an update, up to the placeholder of the
/// identifier.
pub const UPDATE_CONDITION: &'static str = " WHERE id = ";

/// How the update of a tag ends.
pub const UPDATE_TAIL: &'static str = " RETURNING *";

/// The statement that reads the page `query` asks for.
pub fn get_statement(query: GetTagQuery) -> (r: Statement)
    ensures
        r@ == page_model(SELECT_PAGE@, query.limit, query.offset),
{
    page_statement(SELECT_PAGE, query.limit, query.offset)
}

/// What `create_statement` returns: the refusal of fields that break a
/// rule, or the insertion of the fields under `id`.
pub open spec fn planned_create(id: EntityId, data: CreateTag) -> Result<
    StatementModel,
    RepositoryError,
> {
    match data.violation() {
        Some(e) => Err(RepositoryError::Validation(e)),
        None => Ok(
            StatementModel {
                sql: INSERT@,
                binds: seq![
                    BindModel::Id(id),
                    BindModel::Text(data.name@),
                    BindModel::Text(text_or_empty(data.description)),
                ],
            },
        ),
    }
}

/// The statement that stores a new tag under `id`. Fields that break a
/// rule of the model are refused, and nothing is to be run.
pub fn create_statement(id: EntityId, data: CreateTag) -> (r: Result<Statement, RepositoryError>)
    ensures
        planned_view(r) == planned_create(id, data),
{
    if let Some(e) = data.validate() {
        return Err(RepositoryError::Validation(e));
    }
    let CreateTag { name, description } = data;
    let description = match description {
        Some(text) => text,
        None => String::new(),
    };
    let mut binds: Vec<BindValue> = Vec::new();
    binds.push(BindValue::Id(id));
    binds.push(BindValue::Text(name));
    binds.push(BindValue::Text(description));
    assert(binds_view(binds@) =~= planned_create(id, data)->Ok_0.binds);
    Ok(Statement::new(INSERT, binds))
}

/// The statement that stores a new tag under a fresh identifier: what
/// `create_statement` returns for some identifier of version 7.
pub fn create(data: CreateTag) -> (r: Result<Statement, RepositoryError>)
    ensures
        exists|id: EntityId|
            is_version_7(id.value) && planned_view(r) == #[trigger] planned_create(id, data),
{
    let id = EntityId::generate();
    create_statement(id, data)
}

/// The assignments of a tag update: the fields that are present, name
/// before description.
pub open spec fn update_assignments(data: UpdateTag) -> Seq<Assignment> {
    optional_text("name"@, data.name) + optional_text("description"@, data.description)
}

/// What `update_statement` returns: the refusal of a value that breaks a
/// rule, of an update that changes nothing, or of an identifier that could
/// not be read, in this order; else the update of the fields that are
/// present.
pub open spec fn planned_update(data: UpdateTag, id: Option<EntityId>) -> Result<
    StatementModel,
    RepositoryError,
> {
    if data.violation() is Some {
        Err(RepositoryError::Validation(data.violation()->Some_0))
    } else if update_assignments(data).len() == 0 {
        Err(RepositoryError::Validation(ValidationError::NothingToUpdate))
    } else {
        match id {
            None => Err(RepositoryError::InvalidId(IdField::Id)),
            Some(id) => Ok(
                update_model(
                    UPDATE_HEAD@,
                    update_assignments(data),
                    UPDATE_CONDITION@,
                    BindModel::Id(id),
                    UPDATE_TAIL@,
                ),
            ),
        }
    }
}

/// An update is refused or planned with at least one assignment and the
/// identifier bound last: it is never planned without an assignment.
pub proof fn update_is_never_empty(data: UpdateTag, id: Option<EntityId>)
    ensures
        planned_update(data, id) matches Ok(statement) ==> {
            &&& update_assignments(data).len() >= 1
            &&& statement.binds.len() == update_assignments(data).len() + 1
            &&& id is Some
            &&& statement.binds.last() == BindModel::Id(id->Some_0)
        },
{
}

/// The statement that changes the fields of a tag that `data` names and
/// returns the row as it then stands, where `id` is what was read from the
/// identifier of `data`.
pub fn update_statement(data: UpdateTag, id: Option<EntityId>) -> (r: Result<
    Statement,
    RepositoryError,
>)
    ensures
        planned_view(r) == planned_update(data, id),
{
    if let Some(e) = data.validate() {
        return Err(RepositoryError::Validation(e));
    }
    let UpdateTag { id: _, name, description } = data;
    let builder = UpdateBuilder::new(UPDATE_HEAD);
    let builder = builder.set_text("name", name);
    let builder = builder.set_text("description", description);
    assert(builder.assignments() =~= update_assignments(data));
    if builder.is_empty() {
        return Err(RepositoryError::Validation(ValidationError::NothingToUpdate));
    }
    let key = match id {
        Some(id) => id,
        None => { return Err(RepositoryError::InvalidId(IdField::Id)); },
    };
    match builder.finish(UPDATE_CONDITION, BindValue::Id(key), UPDATE_TAIL) {
        Ok(statement) => Ok(statement),
        Err(e) => Err(RepositoryError::Validation(e)),
    }
}

/// The statement that changes a tag, with the identifier read from the
/// text that `data` holds.
pub fn update(data: UpdateTag) -> (r: Result<Statement, RepositoryError>)
    ensures
        planned_view(r) == planned_update(data, EntityId::parsed(data.id@)),
{
    let id = EntityId::parse(data.id.as_str());
    update_statement(data, id)
}

/// The statement that deletes the tag whose identifier is written in
/// `id`.
pub fn delete(id: &str) -> (r: Result<Statement, RepositoryError>)
    ensures
        planned_view(r) == keyed_model(DELETE@, EntityId::parsed(id@)),
{
    keyed_statement(DELETE, EntityId::parse(id))
}

} // verus!
