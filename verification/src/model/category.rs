//! Categories, under which content is filed.

use vstd::prelude::*;
use crate::error::ValidationError;
use crate::validation::{
    api_identifier_violation, check_api_identifier, check_name, check_optional_description,
    first_of, name_violation, optional_description_violation, optional_view,
};

verus! {

/// A category: a name of 1 to 50 characters, an API identifier of 1 to 64,
/// and a description of at most 500 where there is one.
#[derive(Debug, Clone)]
pub struct Category {
    pub id: String,
    pub name: String,
    pub api_identifier: String,
    pub description: Option<String>,
}

/// The first rule that the fields of a category break, in the order name,
/// API identifier, description.
pub open spec fn category_violation(
    name: Seq<char>,
    api_identifier: Seq<char>,
    description: Option<Seq<char>>,
) -> Option<ValidationError> {
    first_of(
        name_violation(name, true),
        first_of(
            api_identifier_violation(api_identifier, true),
            optional_description_violation(description),
        ),
    )
}

impl Category {
    /// Whether the fields keep the bounds of a category.
    pub open spec fn well_formed(&self) -> bool {
        category_violation(self.name@, self.api_identifier@, optional_view(self.description))
            is None
    }

    /// Builds a category, or names the first rule that the fields break.
    pub fn try_new(
        id: String,
        name: String,
        api_identifier: String,
        description: Option<String>,
    ) -> (r: Result<Category, ValidationError>)
        ensures
            match category_violation(name@, api_identifier@, optional_view(description)) {
                Some(e) => r == Err::<Category, ValidationError>(e),
                None => r == Ok::<Category, ValidationError>(
                    Category { id, name, api_identifier, description },
                ),
            },
            r is Ok ==> r->Ok_0.well_formed(),
    {
        if let Some(e) = check_name(name.as_str(), true) {
            return Err(e);
        }
        if let Some(e) = check_api_identifier(api_identifier.as_str(), true) {
            return Err(e);
        }
        if let Some(e) = check_optional_description(&description) {
            return Err(e);
        }
        Ok(Category { id, name, api_identifier, description })
    }
}

} // verus!
