//! Roles, which say what a user may do.

use vstd::prelude::*;
use crate::error::ValidationError;
use crate::validation::{
    check_name, check_optional_description, first_of, name_violation,
    optional_description_violation, optional_view,
};

verus! {

/// A role: a name of at most 50 characters, a description of at most 500
/// where there is one, and whether it grants everything.
#[derive(Debug, Clone)]
pub struct Role {
    pub id: String,
    pub name: String,
    pub description: Option<String>,
    pub is_super_administrator: bool,
}

/// The first rule that the fields of a role break, name before description.
pub open spec fn role_violation(name: Seq<char>, description: Option<Seq<char>>) -> Option<
    ValidationError,
> {
    first_of(name_violation(name, false), optional_description_violation(description))
}

impl Role {
    /// Whether the fields keep the bounds of a role.
    pub open spec fn well_formed(&self) -> bool {
        role_violation(self.name@, optional_view(self.description)) is None
    }

    /// Builds a role, or names the first rule that the fields break.
    pub fn try_new(
        id: String,
        name: String,
        description: Option<String>,
        is_super_administrator: bool,
    ) -> (r: Result<Role, ValidationError>)
        ensures
            match role_violation(name@, optional_view(description)) {
                Some(e) => r == Err::<Role, ValidationError>(e),
                None => r == Ok::<Role, ValidationError>(
                    Role { id, name, description, is_super_administrator },
                ),
            },
            r is Ok ==> r->Ok_0.well_formed(),
    {
        if let Some(e) = check_name(name.as_str(), false) {
            return Err(e);
        }
        if let Some(e) = check_optional_description(&description) {
            return Err(e);
        }
        Ok(Role { id, name, description, is_super_administrator })
    }
}

} // verus!
