//! User rows and the statements that read and write them.

use vstd::prelude::*;
use crate::database::statement::{
    binds_view, keyed_model, keyed_statement, optional_id, optional_text, page_model,
    page_statement, planned_view, update_model, Assignment, BindModel, BindValue, Statement,
    StatementModel, UpdateBuilder,
};
use crate::error::{IdField, RepositoryError, ValidationError};
use crate::ident::{canonical_text, is_version_7, EntityId};
use crate::memory::keyed::Keyed;
use crate::model::role::Role;
use crate::model::user::{icon_url_is_valid, url_parses, User};
use crate::repository::user::{CreateUser, GetUserQuery, UpdateUser};
use crate::validation::optional_view;

verus! {

/// A row of the users table, joined with the row of the user's role.
#[derive(Debug, Clone)]
pub struct UserRow {
    pub id: EntityId,
    pub name: String,
    pub icon_url: String,
    pub role_id: EntityId,
    pub role_name: String,
    pub role_description: Option<String>,
    pub role_is_super_administrator: bool,
}

/// What contracts say of a role row.
pub struct RoleRecord {
    pub id: EntityId,
    pub name: Seq<char>,
    pub description: Option<Seq<char>>,
    pub is_super_administrator: bool,
}

/// A row of the role table.
#[derive(Debug, Clone)]
pub struct RoleRow {
    pub id: EntityId,
    pub name: String,
    pub description: Option<String>,
    pub is_super_administrator: bool,
}

impl View for RoleRow {
    type V = RoleRecord;

    open spec fn view(&self) -> RoleRecord {
        RoleRecord {
            id: self.id,
            name: self.name@,
            description: optional_view(self.description),
            is_super_administrator: self.is_super_administrator,
        }
    }
}

impl Keyed for RoleRow {
    open spec fn key(&self) -> EntityId {
        self.id
    }

    fn id(&self) -> (r: EntityId) {
        self.id
    }
}

/// What contracts say of a user row with the row of its role.
pub struct UserRecord {
    pub id: EntityId,
    pub name: Seq<char>,
    pub icon_url: Seq<char>,
    pub role: RoleRecord,
}

impl View for UserRow {
    type V = UserRecord;

    open spec fn view(&self) -> UserRecord {
        UserRecord {
            id: self.id,
            name: self.name@,
            icon_url: self.icon_url@,
            role: RoleRecord {
                id: self.role_id,
                name: self.role_name@,
                description: optional_view(self.role_description),
                is_super_administrator: self.role_is_super_administrator,
            },
        }
    }
}

impl Keyed for UserRow {
    open spec fn key(&self) -> EntityId {
        self.id
    }

    fn id(&self) -> (r: EntityId) {
        self.id
    }
}

/// Whether `user` is the user that a row stands for: the identifiers in
/// their canonical form, the columns of the role gathered into a role,
/// the other columns as they are.
pub open spec fn shows(user: User, record: UserRecord) -> bool {
    &&& user.id@ == canonical_text(record.id.value)
    &&& user.name@ == record.name
    &&& user.icon_url@ == record.icon_url
    &&& user.role.id@ == canonical_text(record.role.id.value)
    &&& user.role.name@ == record.role.name
    &&& optional_view(user.role.description) == record.role.description
    &&& user.role.is_super_administrator == record.role.is_super_administrator
}

impl UserRow {
    /// The user that the row stands for.
    pub fn to_user(&self) -> (r: User)
        ensures
            shows(r, self@),
    {
        User {
            id: self.id.to_text(),
            name: self.name.clone(),
            icon_url: self.icon_url.clone(),
            role: Role {
                id: self.role_id.to_text(),
                name: self.role_name.clone(),
                description: match &self.role_description {
                    Some(text) => Some(text.clone()),
                    None => None,
                },
                is_super_administrator: self.role_is_super_administrator,
            },
        }
    }

    /// The user that the row stands for: the identifiers in their
    /// canonical form, the columns of the role gathered into a role, the
    /// other columns as they are.
    pub fn into_user(self) -> (r: User)
        ensures
            shows(r, self@),
            r.name == self.name,
            r.icon_url == self.icon_url,
            r.role.name == self.role_name,
            r.role.description == self.role_description,
    {
        User {
            id: self.id.to_text(),
            name: self.name,
            icon_url: self.icon_url,
            role: Role {
                id: self.role_id.to_text(),
                name: self.role_name,
                description: self.role_description,
                is_super_administrator: self.role_is_super_administrator,
            },
        }
    }
}

/// Reads one page of users with their roles.
pub const SELECT_PAGE: &'static str =
    "SELECT users.id, users.name, users.icon_url, role.id AS role_id, role.name AS role_name, role.description AS role_description, role.is_super_administrator AS role_is_super_administrator FROM users JOIN role ON role.id = users.role LIMIT $1 OFFSET $2";

/// Reads the user with an identifier, with the role.
pub const SELECT_ONE: &'static str =
    "SELECT users.id, users.name, users.icon_url, role.id AS role_id, role.name AS role_name, role.description AS role_description, role.is_super_administrator AS role_is_super_administrator FROM users JOIN role ON role.id = users.role WHERE users.id = $1";

/// Inserts one user and returns the row with the role.
pub const INSERT: &'static str =
    "WITH inserted AS (INSERT INTO users (id, name, icon_url, role) VALUES ($1, $2, $3, $4) RETURNING *) SELECT inserted.id, inserted.name, inserted.icon_url, role.id AS role_id, role.name AS role_name, role.description AS role_description, role.is_super_administrator AS role_is_super_administrator FROM inserted JOIN role ON role.id = inserted.role";

/// Deletes the user with an identifier.
pub const DELETE: &'static str = "DELETE FROM users WHERE id = $1";

/// How the update of a user begins.
pub const UPDATE_HEAD: &'static str = "WITH updated AS (UPDATE users SET ";

/// What follows the assignments of an update, up to the placeholder of the
/// identifier.
pub const UPDATE_CONDITION: &'static str = " WHERE users.id = ";

/// How the update of a user ends.
pub const UPDATE_TAIL: &'static str =
    " RETURNING *) SELECT updated.id, updated.name, updated.icon_url, role.id AS role_id, role.name AS role_name, role.description AS role_description, role.is_super_administrator AS role_is_super_administrator FROM updated JOIN role ON role.id = updated.role";

/// The statement that reads the page `query` asks for.
pub fn get_statement(query: GetUserQuery) -> (r: Statement)
    ensures
        r@ == page_model(SELECT_PAGE@, query.limit, query.offset),
{
    page_statement(SELECT_PAGE, query.limit, query.offset)
}

/// The statement that reads the user whose identifier is written in `id`.
pub fn find(id: &str) -> (r: Result<Statement, RepositoryError>)
    ensures
        planned_view(r) == keyed_model(SELECT_ONE@, EntityId::parsed(id@)),
{
    keyed_statement(SELECT_ONE, EntityId::parse(id))
}

/// What `create_statement` returns, given whether the icon URL parses and
/// what was read from the identifier of the role: the refusal of fields
/// that break a rule, then of a role that could not be read; else the
/// insertion of the fields under `id`.
pub open spec fn planned_create(
    id: EntityId,
    data: CreateUser,
    icon_url_parses: bool,
    role: Option<EntityId>,
) -> Result<StatementModel, RepositoryError> {
    match data.violation_given(icon_url_parses) {
        Some(e) => Err(RepositoryError::Validation(e)),
        None => match role {
            None => Err(RepositoryError::InvalidId(IdField::Role)),
            Some(role) => Ok(
                StatementModel {
                    sql: INSERT@,
                    binds: seq![
                        BindModel::Id(id),
                        BindModel::Text(data.name@),
                        BindModel::Text(data.icon_url@),
                        BindModel::Id(role),
                    ],
                },
            ),
        },
    }
}

/// The statement that stores a new user under `id`, where it is known
/// whether the icon URL parses and what the identifier of the role reads
/// as.
pub fn create_statement(
    id: EntityId,
    data: CreateUser,
    icon_url_parses: bool,
    role: Option<EntityId>,
) -> (r: Result<Statement, RepositoryError>)
    ensures
        planned_view(r) == planned_create(id, data, icon_url_parses, role),
{
    if let Some(e) = data.validate_given(icon_url_parses) {
        return Err(RepositoryError::Validation(e));
    }
    let role = match role {
        Some(role) => role,
        None => { return Err(RepositoryError::InvalidId(IdField::Role)); },
    };
    let CreateUser { name, icon_url, role_id: _ } = data;
    let mut binds: Vec<BindValue> = Vec::new();
    binds.push(BindValue::Id(id));
    binds.push(BindValue::Text(name));
    binds.push(BindValue::Text(icon_url));
    binds.push(BindValue::Id(role));
    assert(binds_view(binds@) =~= planned_create(id, data, icon_url_parses, Some(role))->Ok_0.binds);
    Ok(Statement::new(INSERT, binds))
}

/// The statement that stores a new user under a fresh identifier: what
/// `create_statement` returns for some identifier of version 7.
pub fn create(data: CreateUser) -> (r: Result<Statement, RepositoryError>)
    ensures
        exists|id: EntityId|
            is_version_7(id.value) && planned_view(r) == #[trigger] planned_create(
                id,
                data,
                url_parses(data.icon_url@),
                EntityId::parsed(data.role_id@),
            ),
{
    let id = EntityId::generate();
    let parses = icon_url_is_valid(data.icon_url.as_str());
    let role = EntityId::parse(data.role_id.as_str());
    create_statement(id, data, parses, role)
}

/// The assignments of a user update, given what the new role reads as:
/// the fields that are present, in the order name, icon URL, role.
pub open spec fn update_assignments(data: UpdateUser, role: Option<EntityId>) -> Seq<Assignment> {
    optional_text("name"@, data.name) + optional_text("icon_url"@, data.icon_url) + optional_id(
        "role"@,
        if data.role_id is Some {
            role
        } else {
            None
        },
    )
}

/// What `update_statement` returns: the refusal of a value that breaks a
/// rule, of an update that changes nothing, of an identifier that could
/// not be read, or of a new role that could not be read, in this order;
/// else the update of the fields that are present.
pub open spec fn planned_update(
    data: UpdateUser,
    id: Option<EntityId>,
    icon_url_parses: bool,
    role: Option<EntityId>,
) -> Result<StatementModel, RepositoryError> {
    if data.violation_given(icon_url_parses) is Some {
        Err(RepositoryError::Validation(data.violation_given(icon_url_parses)->Some_0))
    } else if data.name is None && data.icon_url is None && data.role_id is None {
        Err(RepositoryError::Validation(ValidationError::NothingToUpdate))
    } else if id is None {
        Err(RepositoryError::InvalidId(IdField::Id))
    } else if data.role_id is Some && role is None {
        Err(RepositoryError::InvalidId(IdField::Role))
    } else {
        Ok(
            update_model(
                UPDATE_HEAD@,
                update_assignments(data, role),
                UPDATE_CONDITION@,
                BindModel::Id(id->Some_0),
                UPDATE_TAIL@,
            ),
        )
    }
}

/// An update is refused or planned with at least one assignment and the
/// identifier bound last: it is never planned without an assignment.
pub proof fn update_is_never_empty(
    data: UpdateUser,
    id: Option<EntityId>,
    icon_url_parses: bool,
    role: Option<EntityId>,
)
    ensures
        planned_update(data, id, icon_url_parses, role) matches Ok(statement) ==> {
            &&& update_assignments(data, role).len() >= 1
            &&& statement.binds.len() == update_assignments(data, role).len() + 1
            &&& id is Some
            &&& statement.binds.last() == BindModel::Id(id->Some_0)
        },
{
}

/// The statement that changes the fields of a user that `data` names and
/// returns the row as it then stands, where `id` and `role` are what was
/// read from the identifiers of `data` and it is known whether the new
/// icon URL parses. Of an absent role or icon URL, `role` and
/// `icon_url_parses` are not looked at.
pub fn update_statement(
    data: UpdateUser,
    id: Option<EntityId>,
    icon_url_parses: bool,
    role: Option<EntityId>,
) -> (r: Result<Statement, RepositoryError>)
    ensures
        planned_view(r) == planned_update(data, id, icon_url_parses, role),
{
    if let Some(e) = data.validate_given(icon_url_parses) {
        return Err(RepositoryError::Validation(e));
    }
    let UpdateUser { id: _, name, icon_url, role_id } = data;
    if name.is_none() && icon_url.is_none() && role_id.is_none() {
        return Err(RepositoryError::Validation(ValidationError::NothingToUpdate));
    }
    let key = match id {
        Some(id) => id,
        None => { return Err(RepositoryError::InvalidId(IdField::Id)); },
    };
    let new_role = if role_id.is_some() {
        match role {
            Some(role) => Some(role),
            None => { return Err(RepositoryError::InvalidId(IdField::Role)); },
        }
    } else {
        None
    };
    let builder = UpdateBuilder::new(UPDATE_HEAD);
    let builder = builder.set_text("name", name);
    let builder = builder.set_text("icon_url", icon_url);
    let builder = builder.set_id("role", new_role);
    assert(builder.assignments() =~= update_assignments(data, role));
    match builder.finish(UPDATE_CONDITION, BindValue::Id(key), UPDATE_TAIL) {
        Ok(statement) => Ok(statement),
        Err(e) => Err(RepositoryError::Validation(e)),
    }
}

/// What was read from the identifier of the new role; of an absent one,
/// nothing.
pub open spec fn parsed_role(data: UpdateUser) -> Option<EntityId> {
    match data.role_id {
        Some(text) => EntityId::parsed(text@),
        None => None,
    }
}

/// The statement that changes a user, with the identifiers read from the
/// texts that `data` holds.
pub fn update(data: UpdateUser) -> (r: Result<Statement, RepositoryError>)
    ensures
        planned_view(r) == planned_update(
            data,
            EntityId::parsed(data.id@),
            data.icon_url_parses(),
            parsed_role(data),
        ),
{
    let id = EntityId::parse(data.id.as_str());
    let parses = data.check_icon_url();
    let role = match &data.role_id {
        Some(text) => EntityId::parse(text.as_str()),
        None => None,
    };
    update_statement(data, id, parses, role)
}

/// The statement that deletes the user whose identifier is written in
/// `id`.
pub fn delete(id: &str) -> (r: Result<Statement, RepositoryError>)
    ensures
        planned_view(r) == keyed_model(DELETE@, EntityId::parsed(id@)),
{
    keyed_statement(DELETE, EntityId::parse(id))
}

} // verus!
