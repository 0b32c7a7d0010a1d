//! The length bounds of the domain model, one rule per kind of field.

use vstd::prelude::*;
use crate::error::ValidationError;
use crate::text::char_count;

verus! {

/// Most characters a name may hold.
pub const NAME_MAX: usize = 50;

/// Most characters an API identifier or a field id may hold.
pub const API_IDENTIFIER_MAX: usize = 64;

/// Most characters a description may hold.
pub const DESCRIPTION_MAX: usize = 500;

/// Most characters a title may hold.
pub const TITLE_MAX: usize = 50;

/// The rule a name breaks, if any. An empty name is a fault only where the
/// entity requires one.
pub open spec fn name_violation(name: Seq<char>, required: bool) -> Option<ValidationError> {
    if required && name.len() < 1 {
        Some(ValidationError::NameEmpty)
    } else if name.len() > NAME_MAX {
        Some(ValidationError::NameTooLong)
    } else {
        None
    }
}

/// The rule an API identifier breaks, if any.
pub open spec fn api_identifier_violation(api_identifier: Seq<char>, required: bool) -> Option<
    ValidationError,
> {
    if required && api_identifier.len() < 1 {
        Some(ValidationError::ApiIdentifierEmpty)
    } else if api_identifier.len() > API_IDENTIFIER_MAX {
        Some(ValidationError::ApiIdentifierTooLong)
    } else {
        None
    }
}

/// The rule a description breaks, if any.
pub open spec fn description_violation(description: Seq<char>) -> Option<ValidationError> {
    if description.len() > DESCRIPTION_MAX {
        Some(ValidationError::DescriptionTooLong)
    } else {
        None
    }
}

/// The rule an optional description breaks; an absent one breaks none.
pub open spec fn optional_description_violation(description: Option<Seq<char>>) -> Option<
    ValidationError,
> {
    match description {
        Some(text) => description_violation(text),
        None => None,
    }
}

/// The rule a title breaks, if any.
pub open spec fn title_violation(title: Seq<char>) -> Option<ValidationError> {
    if title.len() < 1 {
        Some(ValidationError::TitleEmpty)
    } else if title.len() > TITLE_MAX {
        Some(ValidationError::TitleTooLong)
    } else {
        None
    }
}

/// The rule a field id breaks, if any.
pub open spec fn field_id_violation(field_id: Seq<char>) -> Option<ValidationError> {
    if field_id.len() > API_IDENTIFIER_MAX {
        Some(ValidationError::FieldIdTooLong)
    } else {
        None
    }
}

/// The first of two findings.
pub open spec fn first_of(a: Option<ValidationError>, b: Option<ValidationError>) -> Option<
    ValidationError,
> {
    if a is Some {
        a
    } else {
        b
    }
}

/// The view of an optional text.
pub open spec fn optional_view(text: Option<String>) -> Option<Seq<char>> {
    match text {
        Some(t) => Some(t@),
        None => None,
    }
}

/// Holds a name against its rule.
pub fn check_name(name: &str, required: bool) -> (r: Option<ValidationError>)
    ensures
        r == name_violation(name@, required),
{
    let n: usize = char_count(name);
    if required && n < 1 {
        Some(ValidationError::NameEmpty)
    } else if n > NAME_MAX {
        Some(ValidationError::NameTooLong)
    } else {
        None
    }
}

/// Holds an API identifier against its rule.
pub fn check_api_identifier(api_identifier: &str, required: bool) -> (r: Option<ValidationError>)
    ensures
        r == api_identifier_violation(api_identifier@, required),
{
    let n: usize = char_count(api_identifier);
    if required && n < 1 {
        Some(ValidationError::ApiIdentifierEmpty)
    } else if n > API_IDENTIFIER_MAX {
        Some(ValidationError::ApiIdentifierTooLong)
    } else {
        None
    }
}

/// Holds a description against its rule.
pub fn check_description(description: &str) -> (r: Option<ValidationError>)
    ensures
        r == description_violation(description@),
{
    if char_count(description) > DESCRIPTION_MAX {
        Some(ValidationError::DescriptionTooLong)
    } else {
        None
    }
}

/// Holds a description, where there is one, against its rule.
pub fn check_optional_description(description: &Option<String>) -> (r: Option<ValidationError>)
    ensures
        r == optional_description_violation(optional_view(*description)),
{
    match description {
        Some(text) => check_description(text.as_str()),
        None => None,
    }
}

/// Holds a title against its rule.
pub fn check_title(title: &str) -> (r: Option<ValidationError>)
    ensures
        r == title_violation(title@),
{
    let n: usize = char_count(title);
    if n < 1 {
        Some(ValidationError::TitleEmpty)
    } else if n > TITLE_MAX {
        Some(ValidationError::TitleTooLong)
    } else {
        None
    }
}

/// Holds a field id against its rule.
pub fn check_field_id(field_id: &str) -> (r: Option<ValidationError>)
    ensures
        r == field_id_violation(field_id@),
{
    if char_count(field_id) > API_IDENTIFIER_MAX {
        Some(ValidationError::FieldIdTooLong)
    } else {
        None
    }
}

/// The rule that a new name breaks; an absent one breaks none.
pub open spec fn optional_name_violation(name: Option<Seq<char>>, required: bool) -> Option<
    ValidationError,
> {
    match name {
        Some(text) => name_violation(text, required),
        None => None,
    }
}

/// The rule that a new API identifier breaks; an absent one breaks none.
pub open spec fn optional_api_identifier_violation(
    api_identifier: Option<Seq<char>>,
    required: bool,
) -> Option<ValidationError> {
    match api_identifier {
        Some(text) => api_identifier_violation(text, required),
        None => None,
    }
}

/// Holds a new name, where there is one, against its rule.
pub fn check_optional_name(name: &Option<String>, required: bool) -> (r: Option<ValidationError>)
    ensures
        r == optional_name_violation(optional_view(*name), required),
{
    match name {
        Some(text) => check_name(text.as_str(), required),
        None => None,
    }
}

/// Holds a new API identifier, where there is one, against its rule.
pub fn check_optional_api_identifier(api_identifier: &Option<String>, required: bool) -> (r:
    Option<ValidationError>)
    ensures
        r == optional_api_identifier_violation(optional_view(*api_identifier), required),
{
    match api_identifier {
        Some(text) => check_api_identifier(text.as_str(), required),
        None => None,
    }
}

} // verus!
