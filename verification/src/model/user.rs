//! Users, and what their roles allow.

use vstd::prelude::*;
use crate::error::ValidationError;
use crate::text::{owned, same_text};
use crate::validation::{check_name, name_violation};

verus! {

/// Whether `url::Url::parse` accepts `text` as an absolute URL.
pub uninterp spec fn url_parses(text: Seq<char>) -> bool;

/// Calls `url::Url::parse` and tells whether it succeeded. The contract
/// only gives the outcome its name, `url_parses`.
#[verifier::external_body]
fn url_parse_succeeds(text: &str) -> (r: bool)
    ensures
        r == url_parses(text@),
{
    url::Url::parse(text).is_ok()
}

/// Whether `text` parses as an absolute URL.
pub fn icon_url_is_valid(text: &str) -> (r: bool)
    ensures
        r == url_parses(text@),
{
    url_parse_succeeds(text)
}

/// The actions allowed on one resource.
#[derive(Debug, Clone)]
pub struct Grant {
    pub resource: String,
    pub actions: String,
}

/// What a role allows: for each resource, the actions on it.
#[derive(Debug, Clone)]
pub struct Authorities {
    pub grants: Vec<Grant>,
}

/// The actions that the first grant for `resource` among `grants` allows.
pub open spec fn granted(grants: Seq<Grant>, resource: Seq<char>) -> Option<Seq<char>>
    decreases grants.len(),
{
    if grants.len() == 0 {
        None
    } else if grants[0].resource@ == resource {
        Some(grants[0].actions@)
    } else {
        granted(grants.drop_first(), resource)
    }
}

impl Authorities {
    /// The actions allowed on `resource`, if any are.
    pub open spec fn actions_on(&self, resource: Seq<char>) -> Option<Seq<char>> {
        granted(self.grants@, resource)
    }

    /// Looks up the actions allowed on `resource`.
    pub fn get(&self, resource: &str) -> (r: Option<String>)
        ensures
            match self.actions_on(resource@) {
                Some(actions) => r is Some && r->Some_0@ == actions,
                None => r is None,
            },
    {
        let mut i: usize = 0;
        assert(self.grants@.skip(0) =~= self.grants@);
        while i < self.grants.len()
            invariant
                i <= self.grants.len(),
                granted(self.grants@, resource@) == granted(
                    self.grants@.skip(i as int),
                    resource@,
                ),
            decreases self.grants.len() - i,
        {
            if same_text(self.grants[i].resource.as_str(), resource) {
                return Some(self.grants[i].actions.clone());
            }
            assert(self.grants@.skip(i as int).drop_first() =~= self.grants@.skip(i + 1));
            i += 1;
        }
        None
    }
}

/// The actions a super administrator may take on contents.
pub open spec fn admin_actions() -> Seq<char> {
    "get,find,create,update,delete"@
}

/// The actions a member may take on contents.
pub open spec fn member_actions() -> Seq<char> {
    "get"@
}

/// Whether `authorities` allows exactly `actions` on contents and nothing
/// anywhere else.
pub open spec fn grants_on_contents(authorities: Authorities, actions: Seq<char>) -> bool {
    forall|resource: Seq<char>|
        #[trigger] authorities.actions_on(resource) == if resource == "contents"@ {
            Some(actions)
        } else {
            None::<Seq<char>>
        }
}

/// A rank whose permissions are fixed.
pub trait Role {
    /// What the rank allows.
    fn permissions() -> Authorities;
}

/// The rank of a super administrator.
pub struct Admin;

/// The rank of an ordinary member.
pub struct Member;

/// What allows `actions` on `resource` and nothing anywhere else.
fn single_grant(resource: &str, actions: &str) -> (r: Authorities)
    ensures
        forall|q: Seq<char>|
            #[trigger] r.actions_on(q) == if q == resource@ {
                Some(actions@)
            } else {
                None::<Seq<char>>
            },
{
    let mut grants: Vec<Grant> = Vec::new();
    grants.push(Grant { resource: owned(resource), actions: owned(actions) });
    let r = Authorities { grants };
    assert forall|q: Seq<char>|
        #[trigger] r.actions_on(q) == if q == resource@ {
            Some(actions@)
        } else {
            None::<Seq<char>>
        } by {
        reveal_with_fuel(granted, 2);
        assert(r.grants@.len() == 1);
        assert(r.grants@[0].resource@ == resource@);
        assert(r.grants@.drop_first().len() == 0);
    }
    r
}

impl Role for Admin {
    fn permissions() -> (r: Authorities)
        ensures
            grants_on_contents(r, admin_actions()),
    {
        single_grant("contents", "get,find,create,update,delete")
    }
}

impl Role for Member {
    fn permissions() -> (r: Authorities)
        ensures
            grants_on_contents(r, member_actions()),
    {
        single_grant("contents", "get")
    }
}

/// A user: a name of 1 to 50 characters, an icon URL that parses, and a
/// role.
#[derive(Debug, Clone)]
pub struct User {
    pub id: String,
    pub name: String,
    pub icon_url: String,
    pub role: crate::model::role::Role,
}

/// The first rule that the fields of a user break, given whether the icon
/// URL parses: name before icon URL.
pub open spec fn user_violation(name: Seq<char>, icon_url_parses: bool) -> Option<
    ValidationError,
> {
    if name_violation(name, true) is Some {
        name_violation(name, true)
    } else if !icon_url_parses {
        Some(ValidationError::IconUrlInvalid)
    } else {
        None
    }
}

impl User {
    /// Whether the fields keep the rules of a user.
    pub open spec fn well_formed(&self) -> bool {
        user_violation(self.name@, url_parses(self.icon_url@)) is None
    }

    /// Builds a user, or names the first rule that the fields break.
    pub fn try_new(id: String, name: String, icon_url: String, role: crate::model::role::Role) -> (r: Result<
        User,
        ValidationError,
    >)
        ensures
            match user_violation(name@, url_parses(icon_url@)) {
                Some(e) => r == Err::<User, ValidationError>(e),
                None => r == Ok::<User, ValidationError>(User { id, name, icon_url, role }),
            },
            r is Ok ==> r->Ok_0.well_formed(),
    {
        let parses = url_parse_succeeds(icon_url.as_str());
        User::checked(id, name, icon_url, role, parses)
    }

    /// Builds a user from fields of which it is known whether the icon URL
    /// parses.
    pub fn checked(id: String, name: String, icon_url: String, role: crate::model::role::Role, icon_url_parses: bool) -> (r:
        Result<User, ValidationError>)
        ensures
            match user_violation(name@, icon_url_parses) {
                Some(e) => r == Err::<User, ValidationError>(e),
                None => r == Ok::<User, ValidationError>(User { id, name, icon_url, role }),
            },
    {
        if let Some(e) = check_name(name.as_str(), true) {
            return Err(e);
        }
        if !icon_url_parses {
            return Err(ValidationError::IconUrlInvalid);
        }
        Ok(User { id, name, icon_url, role })
    }

    /// What the user's role allows: everything on contents for a super
    /// administrator, reading for anyone else.
    pub fn permissions(&self) -> (r: Authorities)
        ensures
            grants_on_contents(
                r,
                if self.role.is_super_administrator {
                    admin_actions()
                } else {
                    member_actions()
                },
            ),
    {
        if self.role.is_super_administrator {
            Admin::permissions()
        } else {
            Member::permissions()
        }
    }
}

} // verus!
