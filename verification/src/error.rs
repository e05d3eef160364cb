//! Failures: what the store reports, and what a caller of the repository sees.

use vstd::prelude::*;

verus! {

/// What the store reports when a call on it did not succeed.
#[derive(Debug, PartialEq, Eq)]
pub enum StoreFailure {
    /// The statement ran, and no row came back where one was expected.
    RowNotFound,
    /// Any other failure (connection, constraint, syntax, timeout), with the
    /// database client's own description of it.
    Failed(String),
}

/// Why an operation of the repository did not succeed.
#[derive(Debug, PartialEq, Eq)]
pub enum RepoError {
    /// A lookup of a single book matched no row.
    NotFound,
    /// The store failed; its report is handed on as it came.
    StoreError(StoreFailure),
}

/// How a failure of the store reaches the caller of any operation but a
/// lookup by id: unchanged, as a `StoreError`.
pub open spec fn surfaced<T>(answer: Result<T, StoreFailure>) -> Result<T, RepoError> {
    match answer {
        Ok(value) => Ok(value),
        Err(failure) => Err(RepoError::StoreError(failure)),
    }
}

/// How the store's answer to a lookup by id reaches the caller: a missing row
/// is `NotFound`, every other failure a `StoreError`.
pub open spec fn looked_up<T>(answer: Result<T, StoreFailure>) -> Result<T, RepoError> {
    match answer {
        Ok(value) => Ok(value),
        Err(StoreFailure::RowNotFound) => Err(RepoError::NotFound),
        Err(failure) => Err(RepoError::StoreError(failure)),
    }
}

/// How the store's answer to an update or a delete reaches the caller: the
/// number of rows it touched is dropped, so a statement that matched no row
/// is a success like any other.
pub open spec fn acknowledged(answer: Result<u64, StoreFailure>) -> Result<(), RepoError> {
    match answer {
        Ok(_) => Ok(()),
        Err(failure) => Err(RepoError::StoreError(failure)),
    }
}

} // verus!
