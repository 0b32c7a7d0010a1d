//! What the store answered to a statement, and what that means for the
//! operation that ran it.

use vstd::prelude::*;
use crate::error::{RepositoryError, StoreFailure};
use crate::text::same_text;

verus! {

/// What the driver tells of an error of the store.
#[derive(Debug, Clone)]
pub enum StoreFault {
    /// A constraint of the schema was broken: a key that is taken, a row
    /// that is referred to and missing, a value that is missing or not
    /// allowed.
    Constraint,
    /// The database refused the statement for another reason, and gave
    /// this SQL state, if any.
    Database(Option<String>),
    /// The database could not be reached.
    Transport,
    /// Anything else.
    Other,
}

/// The SQL state of a transaction that could not be serialized.
pub const SERIALIZATION_FAILURE: &'static str = "40001";

/// The SQL state of a transaction that was chosen to end a deadlock.
pub const DEADLOCK_DETECTED: &'static str = "40P01";

/// How the store failed, as far as the library tells failures apart: a
/// broken constraint; a conflict with another transaction, told by its SQL
/// state; a lost connection; or something else.
pub open spec fn failure_kind(fault: StoreFault) -> StoreFailure {
    match fault {
        StoreFault::Constraint => StoreFailure::Constraint,
        StoreFault::Database(Some(state)) => if state@ == SERIALIZATION_FAILURE@ || state@
            == DEADLOCK_DETECTED@ {
            StoreFailure::Conflict
        } else {
            StoreFailure::Other
        },
        StoreFault::Database(None) => StoreFailure::Other,
        StoreFault::Transport => StoreFailure::Connection,
        StoreFault::Other => StoreFailure::Other,
    }
}

/// Tells how the store failed from what the driver tells of the error.
pub fn failure_of(fault: &StoreFault) -> (r: StoreFailure)
    ensures
        r == failure_kind(*fault),
{
    match fault {
        StoreFault::Constraint => StoreFailure::Constraint,
        StoreFault::Database(Some(state)) => {
            if same_text(state.as_str(), SERIALIZATION_FAILURE) || same_text(
                state.as_str(),
                DEADLOCK_DETECTED,
            ) {
                StoreFailure::Conflict
            } else {
                StoreFailure::Other
            }
        },
        StoreFault::Database(None) => StoreFailure::Other,
        StoreFault::Transport => StoreFailure::Connection,
        StoreFault::Other => StoreFailure::Other,
    }
}

/// The answer to a statement that should return one row.
#[derive(Debug)]
pub enum Fetched<R> {
    /// The row.
    Row(R),
    /// The statement returned no row.
    NoRow,
    /// The store failed the statement.
    Failed(StoreFailure),
}

/// The answer to a statement that returns rows.
#[derive(Debug)]
pub enum FetchedAll<R> {
    /// The rows, in the order of the store.
    Rows(Vec<R>),
    /// The store failed the statement.
    Failed(StoreFailure),
}

/// The answer to a statement that returns nothing.
#[derive(Debug, Clone, Copy, PartialEq, Eq, Structural)]
pub enum Executed {
    /// The statement ran and touched this many rows.
    Touched(u64),
    /// The store failed the statement.
    Failed(StoreFailure),
}

/// The row that an operation on one row ends with: no row means that none
/// has the identifier, a failure of the store is handed on.
pub fn one_row<R>(answer: Fetched<R>) -> (r: Result<R, RepositoryError>)
    ensures
        r == (match answer {
            Fetched::Row(row) => Ok::<R, RepositoryError>(row),
            Fetched::NoRow => Err(RepositoryError::NotFound),
            Fetched::Failed(failure) => Err(RepositoryError::Store(failure)),
        }),
{
    match answer {
        Fetched::Row(row) => Ok(row),
        Fetched::NoRow => Err(RepositoryError::NotFound),
        Fetched::Failed(failure) => Err(RepositoryError::Store(failure)),
    }
}

/// The rows that a listing ends with: a failure of the store is handed
/// on.
pub fn all_rows<R>(answer: FetchedAll<R>) -> (r: Result<Vec<R>, RepositoryError>)
    ensures
        r == (match answer {
            FetchedAll::Rows(rows) => Ok::<Vec<R>, RepositoryError>(rows),
            FetchedAll::Failed(failure) => Err(RepositoryError::Store(failure)),
        }),
{
    match answer {
        FetchedAll::Rows(rows) => Ok(rows),
        FetchedAll::Failed(failure) => Err(RepositoryError::Store(failure)),
    }
}

/// How a deletion ends: where no row was touched, none has the
/// identifier; a failure of the store is handed on.
pub fn deleted(answer: Executed) -> (r: Result<(), RepositoryError>)
    ensures
        r == (match answer {
            Executed::Touched(rows) => if rows == 0 {
                Err::<(), RepositoryError>(RepositoryError::NotFound)
            } else {
                Ok(())
            },
            Executed::Failed(failure) => Err(RepositoryError::Store(failure)),
        }),
{
    match answer {
        Executed::Touched(rows) => if rows == 0 {
            Err(RepositoryError::NotFound)
        } else {
            Ok(())
        },
        Executed::Failed(failure) => Err(RepositoryError::Store(failure)),
    }
}

} // verus!
