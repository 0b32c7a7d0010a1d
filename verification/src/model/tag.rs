//! Tags, which label content.

use vstd::prelude::*;
use crate::error::ValidationError;
use crate::validation::{
    check_description, check_name, description_violation, first_of, name_violation,
};

verus! {

/// A tag: a name of 1 to 50 characters and a description of at most 500.
#[derive(Debug, Clone)]
pub struct Tag {
    pub id: String,
    pub name: String,
    pub description: String,
}

/// The first rule that the fields of a tag break, name before description.
pub open spec fn tag_violation(name: Seq<char>, description: Seq<char>) -> Option<
    ValidationError,
> {
    first_of(name_violation(name, true), description_violation(description))
}

impl Tag {
    /// Whether the fields keep the bounds of a tag.
    pub open spec fn well_formed(&self) -> bool {
        tag_violation(self.name@, self.description@) is None
    }

    /// Builds a tag, or names the first rule that the fields break.
    pub fn try_new(id: String, name: String, description: String) -> (r: Result<
        Tag,
        ValidationError,
    >)
        ensures
            match tag_violation(name@, description@) {
                Some(e) => r == Err::<Tag, ValidationError>(e),
                None => r == Ok::<Tag, ValidationError>(Tag { id, name, description }),
            },
            r is Ok ==> r->Ok_0.well_formed(),
    {
        if let Some(e) = check_name(name.as_str(), true) {
            return Err(e);
        }
        if let Some(e) = check_description(description.as_str()) {
            return Err(e);
        }
        Ok(Tag { id, name, description })
    }
}

} // verus!
