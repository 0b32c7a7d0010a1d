//! Content model rows and the statements that read and write them.

use vstd::prelude::*;
use crate::database::json::{decode_field_metas, decoded_field_metas, field_metas_view, json_model};
use crate::database::statement::{
    binds_view, keyed_model, keyed_statement, optional_text, planned_view, update_model, Assignment,
    BindModel, BindValue, Statement, StatementModel, UpdateBuilder,
};
use crate::error::{IdField, RepositoryError, ValidationError};
use crate::ident::{canonical_text, is_version_7, EntityId};
use crate::model::content_model::ContentModel;
use crate::repository::content_model::{CreateContentModel, UpdateContentModel};
use crate::text::text_or_empty;

verus! {

/// A row of the content model table. The field definitions are a JSON
/// column.
#[derive(Debug, Clone)]
pub struct ContentModelRow {
    pub content_model_id: EntityId,
    pub name: String,
    pub api_identifier: String,
    pub description: String,
    pub field_metas: serde_json::Value,
}

impl ContentModelRow {
    /// The content model that the row stands for: the identifier in its
    /// canonical form, the field definitions read from their column, the
    /// other columns as they are. A column that holds no field definitions
    /// fails the row.
    pub fn try_into_content_model(self) -> (r: Result<ContentModel, RepositoryError>)
        ensures
            match decoded_field_metas(json_model(self.field_metas)) {
                Ok(metas) => {
                    &&& r is Ok
                    &&& r->Ok_0.id@ == canonical_text(self.content_model_id.value)
                    &&& r->Ok_0.name == self.name
                    &&& r->Ok_0.api_identifier == self.api_identifier
                    &&& r->Ok_0.description == Some(self.description)
                    &&& field_metas_view(r->Ok_0.field_metas@) == metas
                },
                Err(e) => r == Err::<ContentModel, RepositoryError>(RepositoryError::Decode(e)),
            },
    {
        let field_metas = match decode_field_metas(&self.field_metas) {
            Ok(metas) => metas,
            Err(e) => { return Err(RepositoryError::Decode(e)); },
        };
        Ok(
            ContentModel {
                id: self.content_model_id.to_text(),
                name: self.name,
                api_identifier: self.api_identifier,
                description: Some(self.description),
                field_metas,
            },
        )
    }
}

/// Reads every content model.
pub const SELECT_ALL: &'static str = "SELECT * FROM content_model";

/// Inserts one content model and returns its row.
pub const INSERT: &'static str =
    "INSERT INTO content_model (content_model_id, name, api_identifier, description) VALUES ($1, $2, $3, $4) RETURNING content_model_id, name, api_identifier, description, field_metas, created_at, updated_at";

/// Deletes the content model with an identifier.
pub const DELETE: &'static str = "DELETE FROM content_model WHERE content_model_id = $1";

/// How the update of a content model begins.
pub const UPDATE_HEAD: &'static str = "UPDATE content_model SET ";

/// What follows the assignments of an update, up to the placeholder of the
/// identifier.
pub const UPDATE_CONDITION: &'static str = " WHERE content_model_id = ";

/// How the update of a content model ends.
pub const UPDATE_TAIL: &'static str =
    " RETURNING content_model_id, name, api_identifier, description, field_metas, created_at, updated_at";

/// The statement that reads every content model: it binds nothing.
pub fn get_statement() -> (r: Statement)
    ensures
        r@ == (StatementModel { sql: SELECT_ALL@, binds: Seq::empty() }),
{
    let binds: Vec<BindValue> = Vec::new();
    assert(binds_view(binds@) =~= Seq::empty());
    Statement::new(SELECT_ALL, binds)
}

/// What `create_statement` returns: the refusal of fields that break a
/// rule, or the insertion of the fields under `id`.
pub open spec fn planned_create(id: EntityId, data: CreateContentModel) -> Result<
    StatementModel,
    RepositoryError,
> {
    match data.violation() {
        Some(e) => Err(RepositoryError::Validation(e)),
        None => Ok(
            StatementModel {
                sql: INSERT@,
                binds: seq![
                    BindModel::Id(id),
                    BindModel::Text(data.name@),
                    BindModel::Text(data.api_identifier@),
                    BindModel::Text(text_or_empty(data.description)),
                ],
            },
        ),
    }
}

/// The statement that stores a new content model under `id`. Fields that
/// break a rule of the model are refused, and nothing is to be run.
pub fn create_statement(id: EntityId, data: CreateContentModel) -> (r: Result<
    Statement,
    RepositoryError,
>)
    ensures
        planned_view(r) == planned_create(id, data),
{
    if let Some(e) = data.validate() {
        return Err(RepositoryError::Validation(e));
    }
    let CreateContentModel { name, api_identifier, description } = data;
    let description = match description {
        Some(text) => text,
        None => String::new(),
    };
    let mut binds: Vec<BindValue> = Vec::new();
    binds.push(BindValue::Id(id));
    binds.push(BindValue::Text(name));
    binds.push(BindValue::Text(api_identifier));
    binds.push(BindValue::Text(description));
    assert(binds_view(binds@) =~= planned_create(id, data)->Ok_0.binds);
    Ok(Statement::new(INSERT, binds))
}

/// The statement that stores a new content model under a fresh
/// identifier: what `create_statement` returns for some identifier of
/// version 7.
pub fn create(data: CreateContentModel) -> (r: Result<Statement, RepositoryError>)
    ensures
        exists|id: EntityId|
            is_version_7(id.value) && planned_view(r) == #[trigger] planned_create(id, data),
{
    let id = EntityId::generate();
    create_statement(id, data)
}

/// The assignments of a content model update: the fields that are
/// present, in the order name, API identifier, description.
pub open spec fn update_assignments(data: UpdateContentModel) -> Seq<Assignment> {
    optional_text("name"@, data.name) + optional_text("api_identifier"@, data.api_identifier)
        + optional_text("description"@, data.description)
}

/// What `update_statement` returns: the refusal of a value that breaks a
/// rule, of an update that changes nothing, or of an identifier that could
/// not be read, in this order; else the update of the fields that are
/// present.
pub open spec fn planned_update(data: UpdateContentModel, id: Option<EntityId>) -> Result<
    StatementModel,
    RepositoryError,
> {
    if data.violation() is Some {
        Err(RepositoryError::Validation(data.violation()->Some_0))
    } else if update_assignments(data).len() == 0 {
        Err(RepositoryError::Validation(ValidationError::NothingToUpdate))
    } else {
        match id {
            None => Err(RepositoryError::InvalidId(IdField::Id)),
            Some(id) => Ok(
                update_model(
                    UPDATE_HEAD@,
                    update_assignments(data),
                    UPDATE_CONDITION@,
                    BindModel::Id(id),
                    UPDATE_TAIL@,
                ),
            ),
        }
    }
}

/// An update is refused or planned with at least one assignment and the
/// identifier bound last: it is never planned without an assignment.
pub proof fn update_is_never_empty(data: UpdateContentModel, id: Option<EntityId>)
    ensures
        planned_update(data, id) matches Ok(statement) ==> {
            &&& update_assignments(data).len() >= 1
            &&& statement.binds.len() == update_assignments(data).len() + 1
            &&& id is Some
            &&& statement.binds.last() == BindModel::Id(id->Some_0)
        },
{
}

/// The statement that changes the fields of a content model that `data`
/// names and returns the row as it then stands, where `id` is what was
/// read from the identifier of `data`. Every value is bound, none is
/// written into the text.
pub fn update_statement(data: UpdateContentModel, id: Option<EntityId>) -> (r: Result<
    Statement,
    RepositoryError,
>)
    ensures
        planned_view(r) == planned_update(data, id),
{
    if let Some(e) = data.validate() {
        return Err(RepositoryError::Validation(e));
    }
    let UpdateContentModel { id: _, name, api_identifier, description } = data;
    let builder = UpdateBuilder::new(UPDATE_HEAD);
    let builder = builder.set_text("name", name);
    let builder = builder.set_text("api_identifier", api_identifier);
    let builder = builder.set_text("description", description);
    assert(builder.assignments() =~= update_assignments(data));
    if builder.is_empty() {
        return Err(RepositoryError::Validation(ValidationError::NothingToUpdate));
    }
    let key = match id {
        Some(id) => id,
        None => { return Err(RepositoryError::InvalidId(IdField::Id)); },
    };
    match builder.finish(UPDATE_CONDITION, BindValue::Id(key), UPDATE_TAIL) {
        Ok(statement) => Ok(statement),
        Err(e) => Err(RepositoryError::Validation(e)),
    }
}

/// The statement that changes a content model, with the identifier read
/// from the text that `data` holds.
pub fn update(data: UpdateContentModel) -> (r: Result<Statement, RepositoryError>)
    ensures
        planned_view(r) == planned_update(data, EntityId::parsed(data.id@)),
{
    let id = EntityId::parse(data.id.as_str());
    update_statement(data, id)
}

/// The statement that deletes the content model whose identifier is
/// written in `id`.
pub fn delete(id: &str) -> (r: Result<Statement, RepositoryError>)
    ensures
        planned_view(r) == keyed_model(DELETE@, EntityId::parsed(id@)),
{
    keyed_statement(DELETE, EntityId::parse(id))
}

} // verus!
