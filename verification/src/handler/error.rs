//! The errors that a request can end in, and the status each is answered
//! with.

use vstd::prelude::*;
use vstd::string::*;
use crate::error::{RepositoryError, ValidationError};

verus! {

/// The error of a request.
#[derive(Debug, Clone)]
pub enum AppError {
    EntityNotFound(String),
    ValidationError(ValidationError),
    CreateRecordError,
    UpdateRecordError,
    DeleteRecordError,
}

/// What a request asked the repository to do.
#[derive(Debug, Clone, Copy, PartialEq, Eq, Structural)]
pub enum Operation {
    Get,
    Create,
    Update,
    Delete,
}

/// The status for an entity that was not found.
pub const NOT_FOUND: u16 = 404;

/// The status for a request that breaks a rule.
pub const BAD_REQUEST: u16 = 400;

/// The status for an operation that failed.
pub const INTERNAL_SERVER_ERROR: u16 = 500;

impl AppError {
    /// The status that answers the error: 404 for an entity that was not
    /// found, 400 for a broken rule, 500 for a failed operation.
    pub open spec fn status(self) -> u16 {
        match self {
            AppError::EntityNotFound(_) => NOT_FOUND,
            AppError::ValidationError(_) => BAD_REQUEST,
            AppError::CreateRecordError => INTERNAL_SERVER_ERROR,
            AppError::UpdateRecordError => INTERNAL_SERVER_ERROR,
            AppError::DeleteRecordError => INTERNAL_SERVER_ERROR,
        }
    }

    /// The status that answers the error.
    pub fn status_code(&self) -> (r: u16)
        ensures
            r == self.status(),
    {
        match self {
            AppError::EntityNotFound(_) => NOT_FOUND,
            AppError::ValidationError(_) => BAD_REQUEST,
            AppError::CreateRecordError => INTERNAL_SERVER_ERROR,
            AppError::UpdateRecordError => INTERNAL_SERVER_ERROR,
            AppError::DeleteRecordError => INTERNAL_SERVER_ERROR,
        }
    }

    /// The sentence shown for the error.
    pub open spec fn text(self) -> Seq<char> {
        match self {
            AppError::EntityNotFound(what) => what@,
            AppError::ValidationError(e) => e.text(),
            AppError::CreateRecordError => "Failed create record."@,
            AppError::UpdateRecordError => "Failed update record"@,
            AppError::DeleteRecordError => "Failed Delete record"@,
        }
    }

    /// Renders the error as a sentence.
    pub fn message(&self) -> (r: String)
        ensures
            r@ == self.text(),
    {
        match self {
            AppError::EntityNotFound(what) => what.clone(),
            AppError::ValidationError(e) => e.message(),
            AppError::CreateRecordError => "Failed create record.".to_owned(),
            AppError::UpdateRecordError => "Failed update record".to_owned(),
            AppError::DeleteRecordError => "Failed Delete record".to_owned(),
        }
    }

    /// The error of a request whose operation failed with `cause`.
    /// Whatever the cause, the request only tells which operation it was; a
    /// failed listing is answered as an entity that was not found, with no
    /// name.
    pub fn from_failure(operation: Operation, cause: RepositoryError) -> (r: AppError)
        ensures
            match operation {
                Operation::Get => r matches AppError::EntityNotFound(what) && what@.len() == 0,
                Operation::Create => r is CreateRecordError,
                Operation::Update => r is UpdateRecordError,
                Operation::Delete => r is DeleteRecordError,
            },
    {
        match operation {
            Operation::Get => AppError::EntityNotFound(String::new()),
            Operation::Create => AppError::CreateRecordError,
            Operation::Update => AppError::UpdateRecordError,
            Operation::Delete => AppError::DeleteRecordError,
        }
    }
}

} // verus!
