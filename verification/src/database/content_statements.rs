//! The statements that read and write content rows and the tags on them.

use vstd::prelude::*;
use crate::database::contents_repository::{row_status, ContentRowStatus};
use crate::database::json::{encode_fields, encoded_fields};
use crate::database::statement::{
    binds_view, keyed_model, keyed_statement, optional_id, optional_text, page_model,
    page_statement, planned_view, update_model, Assignment, BindModel, BindValue, Statement,
    StatementModel, UpdateBuilder,
};
use crate::error::{IdField, RepositoryError};
use crate::ident::{
    distinct, is_version_7, optional_ids_view, parse_all, without_repetitions, EntityId,
};
use crate::model::content::ContentStatus;
use crate::model::field::{fields_view, Field};
use crate::repository::content::{
    parsed_create_ids, parsed_update_ids, CreateContent, CreateContentIds, CreateIdsModel,
    GetContentQuery, UpdateContent, UpdateContentIds, UpdateIdsModel,
};

verus! {

/// Reads one page of content items, newest first, each joined with its
/// category and its users and with its tags gathered into a JSON array.
pub const SELECT_PAGE: &'static str =
    "SELECT contents.*, category.name AS category_name, created_by.id AS created_by_id, created_by.name AS created_by_name, updated_by.id AS updated_by_id, updated_by.name AS updated_by_name, (SELECT COALESCE(json_agg(json_build_object('id', tags.id, 'name', tags.name)) FILTER (WHERE tags.id IS NOT NULL), '[]'::json) FROM tags JOIN content_tags ON content_tags.tag_id = tags.id WHERE content_tags.content_id = contents.id) AS tags FROM contents JOIN category ON contents.category_id = category.id JOIN users AS created_by ON created_by.id = contents.created_by JOIN users AS updated_by ON updated_by.id = contents.updated_by ORDER BY contents.created_at DESC LIMIT $1 OFFSET $2";

/// Inserts one content row and returns it joined with its category and
/// its users.
pub const INSERT: &'static str =
    "WITH inserted AS (INSERT INTO contents (id, title, category_id, fields, status, created_by, updated_by) VALUES ($1, $2, $3, $4, $5, $6, $7) RETURNING *) SELECT *, category.name AS category_name, created_by.id AS created_by_id, created_by.name AS created_by_name, updated_by.id AS updated_by_id, updated_by.name AS updated_by_name FROM inserted JOIN category ON category.id = inserted.category_id JOIN users AS created_by ON created_by.id = inserted.created_by JOIN users AS updated_by ON updated_by.id = inserted.updated_by";

/// How the update of a content row begins.
pub const UPDATE_HEAD: &'static str = "WITH updated AS (UPDATE contents SET ";

/// What follows the assignments of an update, up to the placeholder of the
/// identifier.
pub const UPDATE_CONDITION: &'static str = " WHERE id = ";

/// How the update of a content row ends: the row is returned joined with
/// its category and its users.
pub const UPDATE_TAIL: &'static str =
    " RETURNING *) SELECT *, category.name AS category_name, created_by.id AS created_by_id, created_by.name AS created_by_name, updated_by.id AS updated_by_id, updated_by.name AS updated_by_name FROM updated JOIN category ON category.id = updated.category_id JOIN users AS created_by ON created_by.id = updated.created_by JOIN users AS updated_by ON updated_by.id = updated.updated_by";

/// Deletes the content row with an identifier.
pub const DELETE: &'static str = "DELETE FROM contents WHERE id = $1";

/// Takes every tag off a content item.
pub const DELETE_TAGS: &'static str = "DELETE FROM content_tags WHERE content_id = $1";

/// Puts the tags of a list on a content item.
pub const INSERT_TAGS: &'static str =
    "INSERT INTO content_tags (content_id, tag_id) SELECT $1, tag_id FROM UNNEST($2) AS tag_id";

/// Reads the tags that are on a content item.
pub const SELECT_TAGS: &'static str =
    "SELECT tags.id AS id, tags.name AS name FROM content_tags JOIN tags ON tags.id = content_tags.tag_id WHERE content_tags.content_id = $1";

/// The statement that reads the page `query` asks for.
pub fn get_statement(query: GetContentQuery) -> (r: Statement)
    ensures
        r@ == page_model(SELECT_PAGE@, query.limit, query.offset),
{
    page_statement(SELECT_PAGE, query.limit, query.offset)
}

/// The statement that deletes the content item whose identifier is
/// written in `id`.
pub fn delete(id: &str) -> (r: Result<Statement, RepositoryError>)
    ensures
        planned_view(r) == keyed_model(DELETE@, EntityId::parsed(id@)),
{
    keyed_statement(DELETE, EntityId::parse(id))
}

/// The statement `sql` with the identifier of a content item as its only
/// bound value.
pub open spec fn content_keyed(sql: Seq<char>, content: EntityId) -> StatementModel {
    StatementModel { sql, binds: seq![BindModel::Id(content)] }
}

/// The statement that takes every tag off the content item `content`.
pub fn delete_tags_statement(content: EntityId) -> (r: Statement)
    ensures
        r@ == content_keyed(DELETE_TAGS@, content),
{
    let mut binds: Vec<BindValue> = Vec::new();
    binds.push(BindValue::Id(content));
    assert(binds_view(binds@) =~= seq![BindModel::Id(content)]);
    Statement::new(DELETE_TAGS, binds)
}

/// The statement that reads the tags on the content item `content`.
pub fn select_tags_statement(content: EntityId) -> (r: Statement)
    ensures
        r@ == content_keyed(SELECT_TAGS@, content),
{
    let mut binds: Vec<BindValue> = Vec::new();
    binds.push(BindValue::Id(content));
    assert(binds_view(binds@) =~= seq![BindModel::Id(content)]);
    Statement::new(SELECT_TAGS, binds)
}

/// The statement that puts `tags` on the content item `content`: the
/// content item is bound first, the list of tags second.
pub fn insert_tags_statement(content: EntityId, tags: Vec<EntityId>) -> (r: Statement)
    ensures
        r@ == (StatementModel {
            sql: INSERT_TAGS@,
            binds: seq![BindModel::Id(content), BindModel::Ids(tags@)],
        }),
{
    let mut binds: Vec<BindValue> = Vec::new();
    binds.push(BindValue::Id(content));
    binds.push(BindValue::Ids(tags));
    assert(binds_view(binds@) =~= seq![BindModel::Id(content), BindModel::Ids(tags@)]);
    Statement::new(INSERT_TAGS, binds)
}

/// What a content write is to do: the statement that writes the row and
/// returns it, and the tags to put in place of those on the item, without
/// repetitions; without tags, those on the item stay.
#[derive(Debug, Clone)]
pub struct ContentWritePlan {
    pub content_id: EntityId,
    pub row: Statement,
    pub tags: Option<Vec<EntityId>>,
}

/// What contracts say of a content write.
pub struct WritePlanModel {
    pub content_id: EntityId,
    pub row: StatementModel,
    pub tags: Option<Seq<EntityId>>,
}

impl View for ContentWritePlan {
    type V = WritePlanModel;

    open spec fn view(&self) -> WritePlanModel {
        WritePlanModel {
            content_id: self.content_id,
            row: self.row@,
            tags: optional_ids_view(self.tags),
        }
    }
}

/// What contracts say of the outcome of planning a content write.
pub open spec fn plan_view(planned: Result<ContentWritePlan, RepositoryError>) -> Result<
    WritePlanModel,
    RepositoryError,
> {
    match planned {
        Ok(plan) => Ok(plan@),
        Err(e) => Err(e),
    }
}

/// What `create_plan` returns: the refusal of a title that breaks its
/// rule, then of the first identifier that could not be read, in the order
/// category, creating user, updating user, tags; else the insertion of the
/// row under `id`, and the tags without repetitions.
pub open spec fn planned_create(id: EntityId, data: CreateContent, ids: CreateIdsModel) -> Result<
    WritePlanModel,
    RepositoryError,
> {
    if data.violation() is Some {
        Err(RepositoryError::Validation(data.violation()->Some_0))
    } else if data.unreadable(ids) is Some {
        Err(RepositoryError::InvalidId(data.unreadable(ids)->Some_0))
    } else {
        Ok(
            WritePlanModel {
                content_id: id,
                row: StatementModel {
                    sql: INSERT@,
                    binds: seq![
                        BindModel::Id(id),
                        BindModel::Text(data.title@),
                        BindModel::Id(ids.category->Some_0),
                        BindModel::Json(encoded_fields(fields_view(data.fields@))),
                        BindModel::Status(row_status(data.status)),
                        BindModel::Id(ids.created_by->Some_0),
                        BindModel::Id(ids.updated_by->Some_0),
                    ],
                },
                tags: Some(distinct(ids.tags->Some_0)),
            },
        )
    }
}

/// Plans the creation of a content item under `id`, where `ids` is what
/// was read from the identifiers that `data` names. Nothing is to be run
/// where the title breaks its rule or an identifier could not be read.
pub fn create_plan(id: EntityId, data: CreateContent, ids: CreateContentIds) -> (r: Result<
    ContentWritePlan,
    RepositoryError,
>)
    ensures
        plan_view(r) == planned_create(id, data, ids@),
{
    if let Some(e) = data.validate() {
        return Err(RepositoryError::Validation(e));
    }
    let category = match ids.category {
        Some(category) => category,
        None => { return Err(RepositoryError::InvalidId(IdField::Category)); },
    };
    let created_by = match ids.created_by {
        Some(created_by) => created_by,
        None => { return Err(RepositoryError::InvalidId(IdField::CreatedBy)); },
    };
    let updated_by = match ids.updated_by {
        Some(updated_by) => updated_by,
        None => { return Err(RepositoryError::InvalidId(IdField::UpdatedBy)); },
    };
    let tags = match &ids.tags {
        Some(tags) => without_repetitions(tags),
        None => { return Err(RepositoryError::InvalidId(IdField::Tag)); },
    };
    let mut binds: Vec<BindValue> = Vec::new();
    binds.push(BindValue::Id(id));
    binds.push(BindValue::Text(data.title));
    binds.push(BindValue::Id(category));
    binds.push(BindValue::Json(encode_fields(&data.fields)));
    binds.push(BindValue::Status(ContentRowStatus::from(data.status)));
    binds.push(BindValue::Id(created_by));
    binds.push(BindValue::Id(updated_by));
    assert(binds_view(binds@) =~= planned_create(id, data, ids@)->Ok_0.row.binds);
    Ok(ContentWritePlan { content_id: id, row: Statement::new(INSERT, binds), tags: Some(tags) })
}

/// Plans the creation of a content item under a fresh identifier, with
/// the identifiers read from the texts that `data` holds: what
/// `create_plan` returns for some identifier of version 7 and for what
/// was read.
pub fn create(data: CreateContent) -> (r: Result<ContentWritePlan, RepositoryError>)
    ensures
        exists|id: EntityId|
            is_version_7(id.value) && plan_view(r) == #[trigger] planned_create(
                id,
                data,
                parsed_create_ids(data),
            ),
{
    let id = EntityId::generate();
    let ids = CreateContentIds {
        category: EntityId::parse(data.category_id.as_str()),
        created_by: EntityId::parse(data.created_by_id.as_str()),
        updated_by: EntityId::parse(data.updated_by_id.as_str()),
        tags: parse_all(&data.tag_ids),
    };
    create_plan(id, data, ids)
}

/// The assignment of field values to `column` as a JSON column, where
/// there are any.
pub open spec fn optional_fields(column: Seq<char>, fields: Option<Vec<Field>>) -> Seq<
    Assignment,
> {
    match fields {
        Some(list) => seq![(column, BindModel::Json(encoded_fields(fields_view(list@))))],
        None => Seq::empty(),
    }
}

/// The assignment of a status to `column`, where there is one.
pub open spec fn optional_status(column: Seq<char>, status: Option<ContentStatus>) -> Seq<
    Assignment,
> {
    match status {
        Some(status) => seq![(column, BindModel::Status(row_status(status)))],
        None => Seq::empty(),
    }
}

/// The assignments of a content update: the fields that are present, in
/// the order title, category, field values, status; and always, last, the
/// user who makes the change.
pub open spec fn update_assignments(data: UpdateContent, ids: UpdateIdsModel) -> Seq<
    Assignment,
> {
    optional_text("title"@, data.title) + optional_id(
        "category_id"@,
        if data.category_id is Some {
            ids.category
        } else {
            None
        },
    ) + optional_fields("fields"@, data.fields) + optional_status("status"@, data.status)
        + seq![("updated_by"@, BindModel::Id(ids.updated_by->Some_0))]
}

/// What `update_plan` returns: the refusal of a title that breaks its
/// rule, then of the first identifier that could not be read, in the order
/// content item, category, updating user, tags, where the update names
/// them; else the update of the fields that are present, and the new tags
/// without repetitions where the update names tags.
pub open spec fn planned_update(data: UpdateContent, ids: UpdateIdsModel) -> Result<
    WritePlanModel,
    RepositoryError,
> {
    if data.violation() is Some {
        Err(RepositoryError::Validation(data.violation()->Some_0))
    } else if data.unreadable(ids) is Some {
        Err(RepositoryError::InvalidId(data.unreadable(ids)->Some_0))
    } else {
        Ok(
            WritePlanModel {
                content_id: ids.id->Some_0,
                row: update_model(
                    UPDATE_HEAD@,
                    update_assignments(data, ids),
                    UPDATE_CONDITION@,
                    BindModel::Id(ids.id->Some_0),
                    UPDATE_TAIL@,
                ),
                tags: if data.tag_ids is Some {
                    Some(distinct(ids.tags->Some_0))
                } else {
                    None
                },
            },
        )
    }
}

/// An update is refused or planned with at least one assignment, the
/// last of them that of the user who makes the change, and the identifier
/// bound last: it is never planned without an assignment.
pub proof fn update_is_never_empty(data: UpdateContent, ids: UpdateIdsModel)
    ensures
        planned_update(data, ids) matches Ok(plan) ==> {
            &&& update_assignments(data, ids).len() >= 1
            &&& update_assignments(data, ids).last() == ("updated_by"@, BindModel::Id(ids.updated_by->Some_0))
            &&& plan.row.binds.len() == update_assignments(data, ids).len() + 1
            &&& plan.row.binds.last() == BindModel::Id(ids.id->Some_0)
        },
{
}

/// Plans the update of a content item, where `ids` is what was read from
/// the identifiers that `data` names. Nothing is to be run where the title
/// breaks its rule or an identifier could not be read. The statement
/// always assigns the user who makes the change, so it never lacks an
/// assignment.
pub fn update_plan(data: UpdateContent, ids: UpdateContentIds) -> (r: Result<
    ContentWritePlan,
    RepositoryError,
>)
    ensures
        plan_view(r) == planned_update(data, ids@),
{
    if let Some(e) = data.validate() {
        return Err(RepositoryError::Validation(e));
    }
    let id = match ids.id {
        Some(id) => id,
        None => { return Err(RepositoryError::InvalidId(IdField::Id)); },
    };
    let category = if data.category_id.is_some() {
        match ids.category {
            Some(category) => Some(category),
            None => { return Err(RepositoryError::InvalidId(IdField::Category)); },
        }
    } else {
        None
    };
    let updated_by = match ids.updated_by {
        Some(updated_by) => updated_by,
        None => { return Err(RepositoryError::InvalidId(IdField::UpdatedBy)); },
    };
    let tags = if data.tag_ids.is_some() {
        match &ids.tags {
            Some(tags) => Some(without_repetitions(tags)),
            None => { return Err(RepositoryError::InvalidId(IdField::Tag)); },
        }
    } else {
        None
    };
    let UpdateContent { id: _, title, category_id: _, fields, tag_ids: _, status, updated_by_id: _ } =
        data;
    let builder = UpdateBuilder::new(UPDATE_HEAD);
    let builder = builder.set_text("title", title);
    let builder = builder.set_id("category_id", category);
    let ghost so_far = builder.assignments();
    let builder = match fields {
        Some(list) => {
            let value = BindValue::Json(encode_fields(&list));
            builder.set("fields", value)
        },
        None => builder,
    };
    assert(builder.assignments() =~= so_far + optional_fields("fields"@, fields));
    let ghost so_far = builder.assignments();
    let builder = match status {
        Some(status) => builder.set("status", BindValue::Status(ContentRowStatus::from(status))),
        None => builder,
    };
    assert(builder.assignments() =~= so_far + optional_status("status"@, status));
    let builder = builder.set("updated_by", BindValue::Id(updated_by));
    assert(builder.assignments() =~= update_assignments(data, ids@));
    match builder.finish(UPDATE_CONDITION, BindValue::Id(id), UPDATE_TAIL) {
        Ok(row) => Ok(ContentWritePlan { content_id: id, row, tags }),
        Err(e) => Err(RepositoryError::Validation(e)),
    }
}

/// Plans the update of a content item, with the identifiers read from
/// the texts that `data` holds: what `update_plan` returns for what was
/// read.
pub fn update(data: UpdateContent) -> (r: Result<ContentWritePlan, RepositoryError>)
    ensures
        plan_view(r) == planned_update(data, parsed_update_ids(data)),
{
    let ids = UpdateContentIds {
        id: EntityId::parse(data.id.as_str()),
        category: match &data.category_id {
            Some(text) => EntityId::parse(text.as_str()),
            None => None,
        },
        updated_by: EntityId::parse(data.updated_by_id.as_str()),
        tags: match &data.tag_ids {
            Some(texts) => parse_all(texts),
            None => None,
        },
    };
    update_plan(data, ids)
}

} // verus!
