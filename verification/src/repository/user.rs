//! What can be asked of the store about users.

use vstd::prelude::*;
use crate::database::user_repository::{shows, RoleRecord, UserRecord};
use crate::error::{IdField, RepositoryError, ValidationError};
use crate::ident::{lemma_position, position, EntityId};
use crate::model::user::{icon_url_is_valid, url_parses, user_violation, User};
use crate::repository::page::page;
use crate::text::replaced;
use crate::validation::{
    check_name, check_optional_name, optional_name_violation, optional_view, NAME_MAX,
};

verus! {

/// A page of users: at most `limit`, after skipping `offset`.
#[derive(Debug, Clone, Copy)]
pub struct GetUserQuery {
    pub limit: i32,
    pub offset: i32,
}

impl GetUserQuery {
    pub fn new(limit: i32, offset: i32) -> (r: GetUserQuery)
        ensures
            r == (GetUserQuery { limit, offset }),
    {
        GetUserQuery { limit, offset }
    }
}

impl Default for GetUserQuery {
    /// The first hundred.
    fn default() -> (r: GetUserQuery)
        ensures
            r == (GetUserQuery { limit: 100, offset: 0 }),
    {
        GetUserQuery { limit: 100, offset: 0 }
    }
}

/// The fields of a user to create.
#[derive(Debug, Clone)]
pub struct CreateUser {
    pub name: String,
    pub icon_url: String,
    pub role_id: String,
}

impl CreateUser {
    pub fn new(name: String, icon_url: String, role_id: String) -> (r: CreateUser)
        ensures
            r == (CreateUser { name, icon_url, role_id }),
    {
        CreateUser { name, icon_url, role_id }
    }

    /// The first rule of a user that the fields break, given whether the
    /// icon URL parses.
    pub open spec fn violation_given(&self, icon_url_parses: bool) -> Option<ValidationError> {
        user_violation(self.name@, icon_url_parses)
    }

    /// The first rule of a user that the fields break.
    pub open spec fn violation(&self) -> Option<ValidationError> {
        self.violation_given(url_parses(self.icon_url@))
    }

    /// Holds the fields against the rules of a user, where it is known
    /// whether the icon URL parses.
    pub fn validate_given(&self, icon_url_parses: bool) -> (r: Option<ValidationError>)
        ensures
            r == self.violation_given(icon_url_parses),
    {
        if let Some(e) = check_name(self.name.as_str(), true) {
            return Some(e);
        }
        if !icon_url_parses {
            return Some(ValidationError::IconUrlInvalid);
        }
        None
    }

    /// Holds the fields against the rules of a user.
    pub fn validate(&self) -> (r: Option<ValidationError>)
        ensures
            r == self.violation(),
    {
        let parses = icon_url_is_valid(self.icon_url.as_str());
        self.validate_given(parses)
    }
}

/// The changes to make to a user: an absent field stays as it is stored.
#[derive(Debug, Clone)]
pub struct UpdateUser {
    pub id: String,
    pub name: Option<String>,
    pub icon_url: Option<String>,
    pub role_id: Option<String>,
}

impl UpdateUser {
    pub fn new(
        id: String,
        name: Option<String>,
        icon_url: Option<String>,
        role_id: Option<String>,
    ) -> (r: UpdateUser)
        ensures
            r == (UpdateUser { id, name, icon_url, role_id }),
    {
        UpdateUser { id, name, icon_url, role_id }
    }

    /// The first rule of a user that a new value breaks, given whether
    /// the new icon URL parses. Of an absent icon URL nothing is asked.
    pub open spec fn violation_given(&self, icon_url_parses: bool) -> Option<ValidationError> {
        if optional_name_violation(optional_view(self.name), true) is Some {
            optional_name_violation(optional_view(self.name), true)
        } else if self.icon_url is Some && !icon_url_parses {
            Some(ValidationError::IconUrlInvalid)
        } else {
            None
        }
    }

    /// Whether the new icon URL parses; of an absent one, that it does.
    pub open spec fn icon_url_parses(&self) -> bool {
        match self.icon_url {
            Some(text) => url_parses(text@),
            None => true,
        }
    }

    /// The first rule of a user that a new value breaks.
    pub open spec fn violation(&self) -> Option<ValidationError> {
        self.violation_given(self.icon_url_parses())
    }

    /// Holds the new values against the rules of a user, where it is
    /// known whether the new icon URL parses.
    pub fn validate_given(&self, icon_url_parses: bool) -> (r: Option<ValidationError>)
        ensures
            r == self.violation_given(icon_url_parses),
    {
        if let Some(e) = check_optional_name(&self.name, true) {
            return Some(e);
        }
        if self.icon_url.is_some() && !icon_url_parses {
            return Some(ValidationError::IconUrlInvalid);
        }
        None
    }

    /// Tells whether the new icon URL parses.
    pub fn check_icon_url(&self) -> (r: bool)
        ensures
            r == self.icon_url_parses(),
    {
        match &self.icon_url {
            Some(text) => icon_url_is_valid(text.as_str()),
            None => true,
        }
    }

    /// Holds the new values against the rules of a user.
    pub fn validate(&self) -> (r: Option<ValidationError>)
        ensures
            r == self.violation(),
    {
        let parses = self.check_icon_url();
        self.validate_given(parses)
    }
}

/// The identifiers of user rows, in order.
pub open spec fn record_ids(rows: Seq<UserRecord>) -> Seq<EntityId> {
    Seq::new(rows.len(), |i: int| rows[i].id)
}

/// The identifiers of role rows, in order.
pub open spec fn role_ids(roles: Seq<RoleRecord>) -> Seq<EntityId> {
    Seq::new(roles.len(), |i: int| roles[i].id)
}

impl CreateUser {
    /// A name that is longer than its bound breaks a rule, whatever the
    /// icon URL.
    pub proof fn over_long_is_refused(self, icon_url_parses: bool)
        ensures
            self.name@.len() > NAME_MAX ==> self.violation_given(icon_url_parses) is Some,
    {
    }

    /// The row that is stored for the fields under `id`, with the row of
    /// the role.
    pub open spec fn record(self, id: EntityId, role: RoleRecord) -> UserRecord {
        UserRecord { id, name: self.name@, icon_url: self.icon_url@, role }
    }
}

impl UpdateUser {
    /// A new name that is longer than its bound breaks a rule, whatever
    /// the icon URL.
    pub proof fn over_long_is_refused(self, icon_url_parses: bool)
        ensures
            self.name is Some && self.name->Some_0@.len() > NAME_MAX ==> self.violation_given(
                icon_url_parses,
            ) is Some,
    {
    }

    /// Whether the update names no field to change.
    pub open spec fn changes_nothing(self) -> bool {
        self.name is None && self.icon_url is None && self.role_id is None
    }

    /// The row that the update makes of a stored row, where `role` is the
    /// row of the new role if the update names one: each field that is
    /// present takes the place of the stored one, each absent field leaves
    /// the stored one as it is.
    pub open spec fn applied_to(self, stored: UserRecord, role: Option<RoleRecord>) -> UserRecord {
        UserRecord {
            id: stored.id,
            name: replaced(stored.name, self.name),
            icon_url: replaced(stored.icon_url, self.icon_url),
            role: match role {
                Some(new) => new,
                None => stored.role,
            },
        }
    }

    /// Applying an update a second time changes nothing more.
    pub proof fn applying_twice_is_applying_once(self, stored: UserRecord, role: Option<RoleRecord>)
        ensures
            self.applied_to(self.applied_to(stored, role), role) == self.applied_to(stored, role),
    {
    }
}

/// What a listing may answer, given the rows of the store: a failure of
/// the store, or the users of the rows that the page shows, in order. A
/// page cannot be asked for with a negative limit or offset.
pub open spec fn listing(
    rows: Seq<UserRecord>,
    query: GetUserQuery,
    answer: Result<Vec<User>, RepositoryError>,
) -> bool {
    match answer {
        Ok(users) => {
            let shown = page(rows, query.limit as int, query.offset as int);
            &&& query.limit >= 0
            &&& query.offset >= 0
            &&& users@.len() == shown.len()
            &&& forall|i: int| 0 <= i < shown.len() ==> shows(#[trigger] users@[i], shown[i])
        },
        Err(e) => e is Store,
    }
}

/// What a look-up may answer, given the rows of the store and what was
/// read from the identifier. An identifier that could not be read is
/// refused. Else the store fails, or no row has the identifier, or the
/// answer is the user of the row that has it.
pub open spec fn finding(
    rows: Seq<UserRecord>,
    id: Option<EntityId>,
    answer: Result<User, RepositoryError>,
) -> bool {
    if id is None {
        answer == Err::<User, RepositoryError>(RepositoryError::InvalidId(IdField::Id))
    } else {
        let place = position(record_ids(rows), id->Some_0);
        match answer {
            Ok(user) => place is Some && shows(user, rows[place->Some_0]),
            Err(e) => e is Store || (e == RepositoryError::NotFound && place is None),
        }
    }
}

/// What a creation may answer and leave behind, given the rows and the
/// roles of the store before it, whether the icon URL parses, and what was
/// read from the identifier of the role. Fields that break a rule, then a
/// role that could not be read, are refused before the store is touched.
/// Else the store fails and nothing changes, or a row with the fields and
/// the role is added under an identifier that no row had, and the answer
/// is its user.
pub open spec fn creation(
    before: Seq<UserRecord>,
    roles: Seq<RoleRecord>,
    data: CreateUser,
    icon_url_parses: bool,
    role: Option<EntityId>,
    answer: Result<User, RepositoryError>,
    after: Seq<UserRecord>,
) -> bool {
    if data.violation_given(icon_url_parses) is Some {
        answer == Err::<User, RepositoryError>(
            RepositoryError::Validation(data.violation_given(icon_url_parses)->Some_0),
        ) && after == before
    } else if role is None {
        answer == Err::<User, RepositoryError>(RepositoryError::InvalidId(IdField::Role))
            && after == before
    } else {
        let found = position(role_ids(roles), role->Some_0);
        match answer {
            Ok(user) => found is Some && exists|id: EntityId|
                {
                    &&& !record_ids(before).contains(id)
                    &&& after == before.push(#[trigger] data.record(id, roles[found->Some_0]))
                    &&& shows(user, data.record(id, roles[found->Some_0]))
                },
            Err(e) => e is Store && after == before,
        }
    }
}

/// What an update may answer and leave behind, given the rows and the
/// roles of the store before it, whether the new icon URL parses, and what
/// was read from the identifiers. In this order: a value that breaks a
/// rule, an update that changes nothing, an identifier that could not be
/// read, and a new role that could not be read are refused before the
/// store is touched. Else the store fails and nothing changes, or no row
/// has the identifier and nothing changes, or the row with the identifier
/// becomes what the update makes of it, and the answer is its user.
pub open spec fn change(
    before: Seq<UserRecord>,
    roles: Seq<RoleRecord>,
    data: UpdateUser,
    id: Option<EntityId>,
    icon_url_parses: bool,
    role: Option<EntityId>,
    answer: Result<User, RepositoryError>,
    after: Seq<UserRecord>,
) -> bool {
    if data.violation_given(icon_url_parses) is Some {
        answer == Err::<User, RepositoryError>(
            RepositoryError::Validation(data.violation_given(icon_url_parses)->Some_0),
        ) && after == before
    } else if data.changes_nothing() {
        answer == Err::<User, RepositoryError>(
            RepositoryError::Validation(ValidationError::NothingToUpdate),
        ) && after == before
    } else if id is None {
        answer == Err::<User, RepositoryError>(RepositoryError::InvalidId(IdField::Id)) && after
            == before
    } else if data.role_id is Some && role is None {
        answer == Err::<User, RepositoryError>(RepositoryError::InvalidId(IdField::Role))
            && after == before
    } else {
        let place = position(record_ids(before), id->Some_0);
        match answer {
            Ok(user) => {
                let new_role = if data.role_id is Some {
                    match position(role_ids(roles), role->Some_0) {
                        Some(k) => Some(roles[k]),
                        None => None,
                    }
                } else {
                    None
                };
                &&& place is Some
                &&& data.role_id is Some ==> new_role is Some
                &&& after == before.update(
                    place->Some_0,
                    data.applied_to(before[place->Some_0], new_role),
                )
                &&& shows(user, data.applied_to(before[place->Some_0], new_role))
            },
            Err(e) => after == before && (e is Store || (e == RepositoryError::NotFound
                && place is None)),
        }
    }
}

/// What a deletion may answer and leave behind, given the rows of the
/// store before it and what was read from the identifier. An identifier
/// that could not be read is refused before the store is touched. Else
/// the store fails and nothing changes, or no row has the identifier and
/// nothing changes, or the row with the identifier is gone and every other
/// row stays where it was.
pub open spec fn removal(
    before: Seq<UserRecord>,
    id: Option<EntityId>,
    answer: Result<(), RepositoryError>,
    after: Seq<UserRecord>,
) -> bool {
    if id is None {
        answer == Err::<(), RepositoryError>(RepositoryError::InvalidId(IdField::Id)) && after
            == before
    } else {
        let place = position(record_ids(before), id->Some_0);
        match answer {
            Ok(_) => place is Some && after == before.remove(place->Some_0),
            Err(e) => after == before && (e is Store || (e == RepositoryError::NotFound
                && place is None)),
        }
    }
}

/// After a user was deleted, no row has their identifier, so no listing
/// shows them.
pub proof fn deleted_is_gone(
    before: Seq<UserRecord>,
    id: EntityId,
    after: Seq<UserRecord>,
    limit: int,
    offset: int,
)
    requires
        record_ids(before).no_duplicates(),
        removal(before, Some(id), Ok(()), after),
        0 <= limit,
        0 <= offset,
    ensures
        !record_ids(after).contains(id),
        forall|i: int|
            0 <= i < page(after, limit, offset).len() ==> (#[trigger] page(
                after,
                limit,
                offset,
            )[i]).id != id,
{
    let ids = record_ids(before);
    lemma_position(ids, id);
    let place = position(ids, id)->Some_0;
    assert forall|j: int| 0 <= j < after.len() implies (#[trigger] after[j]).id != id by {
        if j < place {
            assert(after[j] == before[j]);
            assert(ids[j] == before[j].id);
        } else {
            assert(after[j] == before[j + 1]);
            assert(ids[j + 1] == before[j + 1].id);
            assert(ids[place] == id);
        }
    }
    if record_ids(after).contains(id) {
        let j = choose|j: int| 0 <= j < after.len() && record_ids(after)[j] == id;
        assert(after[j].id == id);
    }
}

/// An update that succeeded and is issued once more leaves the rows as
/// the first left them, whatever the store answers the second time.
pub proof fn second_update_changes_nothing(
    before: Seq<UserRecord>,
    roles: Seq<RoleRecord>,
    data: UpdateUser,
    id: Option<EntityId>,
    icon_url_parses: bool,
    role: Option<EntityId>,
    first: User,
    between: Seq<UserRecord>,
    second: Result<User, RepositoryError>,
    after: Seq<UserRecord>,
)
    requires
        record_ids(before).no_duplicates(),
        change(before, roles, data, id, icon_url_parses, role, Ok(first), between),
        change(between, roles, data, id, icon_url_parses, role, second, after),
    ensures
        after == between,
{
    if second is Ok {
        let ids = record_ids(before);
        let place = position(ids, id->Some_0)->Some_0;
        lemma_position(ids, id->Some_0);
        assert(record_ids(between) =~= ids);
        assert(after =~= between);
    }
}

/// What was read from the identifier of the role that an update names;
/// of an absent one, nothing.
pub open spec fn parsed_new_role(data: UpdateUser) -> Option<EntityId> {
    match data.role_id {
        Some(text) => EntityId::parsed(text@),
        None => None,
    }
}

/// A store of users. The roles that users can have are fixed.
pub trait UserRepository {
    /// The rows of the store, in the order in which the store lists them.
    spec fn rows(&self) -> Seq<UserRecord>;

    /// The roles of the store.
    spec fn roles(&self) -> Seq<RoleRecord>;

    /// Whether the store is in order; then no two rows have the same
    /// identifier.
    spec fn well_formed(&self) -> bool;

    /// No two rows of a store in order have the same identifier.
    proof fn identifiers_are_distinct(&self)
        requires
            self.well_formed(),
        ensures
            record_ids(self.rows()).no_duplicates(),
    ;

    /// Lists the users of one page.
    fn get(&self, query: GetUserQuery) -> (r: Result<Vec<User>, RepositoryError>)
        requires
            self.well_formed(),
        ensures
            listing(self.rows(), query, r),
    ;

    /// Looks up the user whose identifier is written in `id`.
    fn find(&self, id: String) -> (r: Result<User, RepositoryError>)
        requires
            self.well_formed(),
        ensures
            finding(self.rows(), EntityId::parsed(id@), r),
    ;

    /// Creates a user under a fresh identifier.
    fn create(&mut self, create_user: CreateUser) -> (r: Result<User, RepositoryError>)
        requires
            old(self).well_formed(),
        ensures
            final(self).well_formed(),
            final(self).roles() == old(self).roles(),
            creation(
                old(self).rows(),
                old(self).roles(),
                create_user,
                url_parses(create_user.icon_url@),
                EntityId::parsed(create_user.role_id@),
                r,
                final(self).rows(),
            ),
    ;

    /// Changes the fields of a user that the update names.
    fn update(&mut self, update_user: UpdateUser) -> (r: Result<User, RepositoryError>)
        requires
            old(self).well_formed(),
        ensures
            final(self).well_formed(),
            final(self).roles() == old(self).roles(),
            change(
                old(self).rows(),
                old(self).roles(),
                update_user,
                EntityId::parsed(update_user.id@),
                update_user.icon_url_parses(),
                parsed_new_role(update_user),
                r,
                final(self).rows(),
            ),
    ;

    /// Deletes the user whose identifier is written in `id`.
    fn delete(&mut self, id: String) -> (r: Result<(), RepositoryError>)
        requires
            old(self).well_formed(),
        ensures
            final(self).well_formed(),
            final(self).roles() == old(self).roles(),
            removal(old(self).rows(), EntityId::parsed(id@), r, final(self).rows()),
    ;
}

} // verus!
