//! Content models, the schemas that content is written against.

use vstd::prelude::*;
use crate::error::ValidationError;
use crate::model::field_meta::FieldMeta;
use crate::validation::{
    api_identifier_violation, check_api_identifier, check_name, check_optional_description,
    first_of, name_violation, optional_description_violation, optional_view,
};

verus! {

/// A content model: a name of at most 50 characters, an API identifier of
/// at most 64, a description of at most 500 where there is one, and the
/// definitions of its fields in order.
#[derive(Debug, Clone)]
pub struct ContentModel {
    pub id: String,
    pub name: String,
    pub api_identifier: String,
    pub description: Option<String>,
    pub field_metas: Vec<FieldMeta>,
}

/// The first rule that the fields of a content model break, in the order
/// name, API identifier, description.
pub open spec fn content_model_violation(
    name: Seq<char>,
    api_identifier: Seq<char>,
    description: Option<Seq<char>>,
) -> Option<ValidationError> {
    first_of(
        name_violation(name, false),
        first_of(
            api_identifier_violation(api_identifier, false),
            optional_description_violation(description),
        ),
    )
}

impl ContentModel {
    /// Whether the fields keep the bounds of a content model.
    pub open spec fn well_formed(&self) -> bool {
        content_model_violation(self.name@, self.api_identifier@, optional_view(self.description))
            is None
    }

    /// Builds a content model, or names the first rule that the fields
    /// break.
    pub fn try_new(
        id: String,
        name: String,
        api_identifier: String,
        description: Option<String>,
        field_metas: Vec<FieldMeta>,
    ) -> (r: Result<ContentModel, ValidationError>)
        ensures
            match content_model_violation(name@, api_identifier@, optional_view(description)) {
                Some(e) => r == Err::<ContentModel, ValidationError>(e),
                None => r == Ok::<ContentModel, ValidationError>(
                    ContentModel { id, name, api_identifier, description, field_metas },
                ),
            },
            r is Ok ==> r->Ok_0.well_formed(),
    {
        if let Some(e) = check_name(name.as_str(), false) {
            return Err(e);
        }
        if let Some(e) = check_api_identifier(api_identifier.as_str(), false) {
            return Err(e);
        }
        if let Some(e) = check_optional_description(&description) {
            return Err(e);
        }
        Ok(ContentModel { id, name, api_identifier, description, field_metas })
    }
}

} // verus!
