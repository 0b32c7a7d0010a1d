//! What can go wrong, from a rejected field to a failing store.

use vstd::prelude::*;
use vstd::string::*;

verus! {

/// A rule of the domain model that a value broke.
#[derive(Clone, Copy, Debug, PartialEq, Eq, Structural)]
pub enum ValidationError {
    NameEmpty,
    NameTooLong,
    ApiIdentifierEmpty,
    ApiIdentifierTooLong,
    DescriptionTooLong,
    TitleEmpty,
    TitleTooLong,
    FieldIdTooLong,
    IconUrlInvalid,
    NothingToUpdate,
}

impl ValidationError {
    /// The sentence shown for this error.
    pub open spec fn text(self) -> Seq<char> {
        match self {
            ValidationError::NameEmpty => "Name must be at least 1 character long"@,
            ValidationError::NameTooLong => "Name exceeds maximum length(50 characters)"@,
            ValidationError::ApiIdentifierEmpty => "Api identifier must be at least 1 character long"@,
            ValidationError::ApiIdentifierTooLong => "Api identifier exceeds maximum length(64 characters)"@,
            ValidationError::DescriptionTooLong => "Description exceeds maximum length(500 characters)"@,
            ValidationError::TitleEmpty => "Title must be at least 1 character long"@,
            ValidationError::TitleTooLong => "Title exceeds maximum length(50 characters)"@,
            ValidationError::FieldIdTooLong => "Field id exceeds maximum length(64 characters)"@,
            ValidationError::IconUrlInvalid => "Icon URL is invalid URL."@,
            ValidationError::NothingToUpdate => "Update names no field to change"@,
        }
    }

    /// Renders the error as a sentence.
    pub fn message(&self) -> (r: String)
        ensures
            r@ == self.text(),
    {
        let s: &str = match self {
            ValidationError::NameEmpty => "Name must be at least 1 character long",
            ValidationError::NameTooLong => "Name exceeds maximum length(50 characters)",
            ValidationError::ApiIdentifierEmpty => "Api identifier must be at least 1 character long",
            ValidationError::ApiIdentifierTooLong => "Api identifier exceeds maximum length(64 characters)",
            ValidationError::DescriptionTooLong => "Description exceeds maximum length(500 characters)",
            ValidationError::TitleEmpty => "Title must be at least 1 character long",
            ValidationError::TitleTooLong => "Title exceeds maximum length(50 characters)",
            ValidationError::FieldIdTooLong => "Field id exceeds maximum length(64 characters)",
            ValidationError::IconUrlInvalid => "Icon URL is invalid URL.",
            ValidationError::NothingToUpdate => "Update names no field to change",
        };
        s.to_owned()
    }
}

/// Why a JSON column does not hold what its place in a row asks for.
#[derive(Clone, Copy, Debug, PartialEq, Eq, Structural)]
pub enum DecodeError {
    NotAnArray,
    NotAnObject,
    MissingMember,
    NotText,
    NotABoolean,
    UnknownFieldType,
}

/// Which identifier of a command could not be read.
#[derive(Clone, Copy, Debug, PartialEq, Eq, Structural)]
pub enum IdField {
    Id,
    Category,
    CreatedBy,
    UpdatedBy,
    Role,
    Tag,
}

/// How the store failed a statement.
#[derive(Clone, Copy, Debug, PartialEq, Eq, Structural)]
pub enum StoreFailure {
    Constraint,
    Connection,
    Conflict,
    Other,
}

/// Why a repository operation produced no entity.
#[derive(Clone, Copy, Debug, PartialEq, Eq, Structural)]
pub enum RepositoryError {
    /// A field of the command broke a rule of the domain model.
    Validation(ValidationError),
    /// An identifier of the command is not in a form the store reads.
    InvalidId(IdField),
    /// No row has the identifier.
    NotFound,
    /// The store failed the statement.
    Store(StoreFailure),
    /// A stored JSON column does not hold what the entity asks for.
    Decode(DecodeError),
}

} // verus!
