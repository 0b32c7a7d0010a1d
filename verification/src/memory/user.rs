//! A store of users that lives in memory.

use vstd::prelude::*;
use crate::database::user_repository::{shows, RoleRecord, RoleRow, UserRecord, UserRow};
use crate::error::{IdField, RepositoryError, StoreFailure, ValidationError};
use crate::ident::{is_version_7, lemma_position, lemma_remove_keeps_distinct, position, EntityId};
use crate::memory::keyed::{find, keys};
use crate::model::user::{url_parses, User};
use crate::repository::page::{page, page_bounds};
use crate::repository::user::{
    creation, parsed_new_role, record_ids, role_ids, CreateUser, GetUserQuery, UpdateUser,
    UserRepository,
};

verus! {

/// What contracts say of user rows, in order.
pub open spec fn records(rows: Seq<UserRow>) -> Seq<UserRecord> {
    Seq::new(rows.len(), |i: int| rows[i]@)
}

/// What contracts say of role rows, in order.
pub open spec fn role_records(rows: Seq<RoleRow>) -> Seq<RoleRecord> {
    Seq::new(rows.len(), |i: int| rows[i]@)
}

/// Users kept in memory, in the order of their creation, and the roles
/// they can have.
pub struct MemoryUserRepository {
    known_roles: Vec<RoleRow>,
    stored: Vec<UserRow>,
}

/// A copy of an optional text.
fn copy_of(text: &Option<String>) -> (r: Option<String>)
    ensures
        r == *text,
{
    match text {
        Some(t) => Some(t.clone()),
        None => None,
    }
}

impl MemoryUserRepository {
    /// A store without users, with the roles that users can have.
    pub fn new(roles: Vec<RoleRow>) -> (r: MemoryUserRepository)
        ensures
            r.well_formed(),
            r.rows() == Seq::<UserRecord>::empty(),
            r.roles() == role_records(roles@),
    {
        let r = MemoryUserRepository { known_roles: roles, stored: Vec::new() };
        assert(r.rows() =~= Seq::<UserRecord>::empty());
        r
    }

    /// Finds the role with the identifier `role`.
    fn role_place(&self, role: EntityId) -> (r: Option<usize>)
        ensures
            match r {
                Some(k) => position(role_ids(self.roles()), role) == Some(k as int) && k
                    < self.known_roles.len(),
                None => position(role_ids(self.roles()), role) is None,
            },
    {
        proof {
            assert(keys(self.known_roles@) =~= role_ids(self.roles()));
        }
        find(&self.known_roles, role)
    }

    /// Creates a user under `id`. Fields that break a rule, then a role
    /// that cannot be read, are refused; a role that the store does not
    /// have, or an identifier that a row already has, fails as a broken
    /// constraint; else the row is added last, and the answer is its user.
    pub fn create_with(&mut self, id: EntityId, data: CreateUser) -> (r: Result<
        User,
        RepositoryError,
    >)
        requires
            old(self).well_formed(),
        ensures
            final(self).well_formed(),
            final(self).roles() == old(self).roles(),
            creation(
                old(self).rows(),
                old(self).roles(),
                data,
                url_parses(data.icon_url@),
                EntityId::parsed(data.role_id@),
                r,
                final(self).rows(),
            ),
            r is Ok ==> exists|k: int|
                0 <= k < old(self).roles().len() && final(self).rows() == old(self).rows().push(
                    #[trigger] data.record(id, old(self).roles()[k]),
                ),
            r matches Err(RepositoryError::Store(failure)) ==> failure == StoreFailure::Constraint,
            r is Ok <==> {
                &&& data.violation() is None
                &&& EntityId::parsed(data.role_id@) is Some
                &&& position(role_ids(old(self).roles()), EntityId::parsed(data.role_id@)->Some_0)
                    is Some
                &&& !record_ids(old(self).rows()).contains(id)
            },
    {
        if let Some(e) = data.validate() {
            return Err(RepositoryError::Validation(e));
        }
        let role = match EntityId::parse(data.role_id.as_str()) {
            Some(role) => role,
            None => { return Err(RepositoryError::InvalidId(IdField::Role)); },
        };
        let k = match self.role_place(role) {
            Some(k) => k,
            None => { return Err(RepositoryError::Store(StoreFailure::Constraint)); },
        };
        proof {
            lemma_position(keys(self.stored@), id);
            assert(keys(self.stored@) =~= record_ids(self.rows()));
        }
        if find(&self.stored, id).is_some() {
            return Err(RepositoryError::Store(StoreFailure::Constraint));
        }
        let CreateUser { name, icon_url, role_id: _ } = data;
        let row = UserRow {
            id,
            name,
            icon_url,
            role_id: self.known_roles[k].id,
            role_name: self.known_roles[k].name.clone(),
            role_description: copy_of(&self.known_roles[k].description),
            role_is_super_administrator: self.known_roles[k].is_super_administrator,
        };
        assert(row@ == data.record(id, self.roles()[k as int]));
        let user = row.to_user();
        let ghost before = self.rows();
        self.stored.push(row);
        proof {
            assert(self.rows() =~= before.push(data.record(id, self.roles()[k as int])));
            assert(record_ids(self.rows()) =~= record_ids(before).push(id));
        }
        Ok(user)
    }
}

impl UserRepository for MemoryUserRepository {
    closed spec fn rows(&self) -> Seq<UserRecord> {
        records(self.stored@)
    }

    closed spec fn roles(&self) -> Seq<RoleRecord> {
        role_records(self.known_roles@)
    }

    closed spec fn well_formed(&self) -> bool {
        record_ids(self.rows()).no_duplicates()
    }

    proof fn identifiers_are_distinct(&self) {
    }

    /// Never fails but on a negative limit or offset.
    fn get(&self, query: GetUserQuery) -> (r: Result<Vec<User>, RepositoryError>)
        ensures
            r is Ok <==> query.limit >= 0 && query.offset >= 0,
    {
        if query.limit < 0 || query.offset < 0 {
            return Err(RepositoryError::Store(StoreFailure::Other));
        }
        let (from, to) = page_bounds(self.stored.len(), query.limit, query.offset);
        let ghost shown = page(self.rows(), query.limit as int, query.offset as int);
        let mut users: Vec<User> = Vec::new();
        let mut i: usize = from;
        while i < to
            invariant
                from <= i <= to <= self.stored.len(),
                shown == self.rows().subrange(from as int, to as int),
                users@.len() == i - from,
                forall|j: int| 0 <= j < i - from ==> shows(#[trigger] users@[j], shown[j]),
            decreases to - i,
        {
            users.push(self.stored[i].to_user());
            i += 1;
        }
        Ok(users)
    }

    /// Never fails on the store's account.
    fn find(&self, id: String) -> (r: Result<User, RepositoryError>)
        ensures
            r is Err ==> !(r->Err_0 is Store),
    {
        let key = match EntityId::parse(id.as_str()) {
            Some(key) => key,
            None => { return Err(RepositoryError::InvalidId(IdField::Id)); },
        };
        proof {
            assert(keys(self.stored@) =~= record_ids(self.rows()));
        }
        match find(&self.stored, key) {
            Some(place) => Ok(self.stored[place].to_user()),
            None => Err(RepositoryError::NotFound),
        }
    }

    /// Draws an identifier of version 7 and creates the user under it. It
    /// succeeds exactly where no field breaks a rule, the role is read and
    /// is among the roles of the store, and no row has the identifier
    /// drawn; it fails on the store's account only as a broken constraint.
    fn create(&mut self, create_user: CreateUser) -> (r: Result<User, RepositoryError>)
        ensures
            exists|id: EntityId|
                {
                    &&& #[trigger] is_version_7(id.value)
                    &&& r is Ok <==> {
                        &&& create_user.violation() is None
                        &&& EntityId::parsed(create_user.role_id@) is Some
                        &&& position(
                            role_ids(old(self).roles()),
                            EntityId::parsed(create_user.role_id@)->Some_0,
                        ) is Some
                        &&& !(record_ids(old(self).rows()).contains(id))
                    }
                },
            r matches Err(RepositoryError::Store(failure)) ==> failure == StoreFailure::Constraint,
    {
        let id = EntityId::generate();
        let ghost before = self.rows();
        let ghost roles = self.roles();
        let r = self.create_with(id, create_user);
        assert({
            &&& is_version_7(id.value)
            &&& r is Ok <==> {
                &&& create_user.violation() is None
                &&& EntityId::parsed(create_user.role_id@) is Some
                &&& position(role_ids(roles), EntityId::parsed(create_user.role_id@)->Some_0)
                    is Some
                &&& !(record_ids(before).contains(id))
            }
        });
        r
    }

    /// Fails on the store's account only where the store does not have
    /// the new role. It succeeds exactly where no new value breaks a rule,
    /// the update names a field, the identifier is read and a row has it,
    /// and a new role, where the update names one, is read and is among the
    /// roles of the store.
    fn update(&mut self, update_user: UpdateUser) -> (r: Result<User, RepositoryError>)
        ensures
            r matches Err(RepositoryError::Store(failure)) ==> failure == StoreFailure::Constraint,
            r is Ok <==> {
                &&& update_user.violation() is None
                &&& !update_user.changes_nothing()
                &&& EntityId::parsed(update_user.id@) is Some
                &&& position(record_ids(old(self).rows()), EntityId::parsed(update_user.id@)->Some_0)
                    is Some
                &&& update_user.role_id is Some ==> {
                    &&& parsed_new_role(update_user) is Some
                    &&& position(role_ids(old(self).roles()), parsed_new_role(update_user)->Some_0)
                        is Some
                }
            },
    {
        if let Some(e) = update_user.validate() {
            return Err(RepositoryError::Validation(e));
        }
        let ghost data = update_user;
        let UpdateUser { id, name, icon_url, role_id } = update_user;
        if name.is_none() && icon_url.is_none() && role_id.is_none() {
            return Err(RepositoryError::Validation(ValidationError::NothingToUpdate));
        }
        let key = match EntityId::parse(id.as_str()) {
            Some(key) => key,
            None => { return Err(RepositoryError::InvalidId(IdField::Id)); },
        };
        let new_role = match &role_id {
            Some(text) => match EntityId::parse(text.as_str()) {
                Some(role) => Some(role),
                None => { return Err(RepositoryError::InvalidId(IdField::Role)); },
            },
            None => None,
        };
        proof {
            assert(keys(self.stored@) =~= record_ids(self.rows()));
        }
        let place = match find(&self.stored, key) {
            Some(place) => place,
            None => { return Err(RepositoryError::NotFound); },
        };
        let role_place = match new_role {
            Some(role) => match self.role_place(role) {
                Some(k) => Some(k),
                None => { return Err(RepositoryError::Store(StoreFailure::Constraint)); },
            },
            None => None,
        };
        let ghost before = self.rows();
        let ghost role_record = match role_place {
            Some(k) => Some(self.roles()[k as int]),
            None => None,
        };
        let mut row = self.stored.remove(place);
        assert(row@ == before[place as int]);
        if let Some(text) = name {
            row.name = text;
        }
        if let Some(text) = icon_url {
            row.icon_url = text;
        }
        if let Some(k) = role_place {
            row.role_id = self.known_roles[k].id;
            row.role_name = self.known_roles[k].name.clone();
            row.role_description = copy_of(&self.known_roles[k].description);
            row.role_is_super_administrator = self.known_roles[k].is_super_administrator;
        }
        assert(row@ == data.applied_to(before[place as int], role_record));
        let user = row.to_user();
        self.stored.insert(place, row);
        proof {
            let now = data.applied_to(before[place as int], role_record);
            assert(self.rows() =~= before.update(place as int, now));
            assert(record_ids(self.rows()) =~= record_ids(before));
        }
        Ok(user)
    }

    /// Never fails on the store's account.
    fn delete(&mut self, id: String) -> (r: Result<(), RepositoryError>)
        ensures
            r is Err ==> !(r->Err_0 is Store),
    {
        let key = match EntityId::parse(id.as_str()) {
            Some(key) => key,
            None => { return Err(RepositoryError::InvalidId(IdField::Id)); },
        };
        proof {
            assert(keys(self.stored@) =~= record_ids(self.rows()));
        }
        let place = match find(&self.stored, key) {
            Some(place) => place,
            None => { return Err(RepositoryError::NotFound); },
        };
        let ghost before = self.rows();
        self.stored.remove(place);
        proof {
            assert(self.rows() =~= before.remove(place as int));
            assert(record_ids(self.rows()) =~= record_ids(before).remove(place as int));
            lemma_remove_keeps_distinct(record_ids(before), place as int);
        }
        Ok(())
    }
}

} // verus!
