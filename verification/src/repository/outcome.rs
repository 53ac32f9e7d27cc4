//! Outcomes of statements, and the rules shared by all tables.

use vstd::prelude::*;
use crate::errors::repository_error::RepositoryError;

verus! {

/// How a statement failed.
#[derive(Debug, Clone, PartialEq, Eq)]
pub enum DbFailure {
    /// The statement broke a unique constraint.
    UniqueViolation(String),
    /// The statement broke a check constraint.
    CheckViolation(String),
    /// The statement failed for another reason.
    Other(String),
}

impl DbFailure {
    /// What the database said.
    pub open spec fn detail(self) -> String {
        match self {
            DbFailure::UniqueViolation(detail) => detail,
            DbFailure::CheckViolation(detail) => detail,
            DbFailure::Other(detail) => detail,
        }
    }

    /// What the database said.
    pub fn into_detail(self) -> (detail: String)
        ensures
            detail == self.detail(),
    {
        match self {
            DbFailure::UniqueViolation(detail) => detail,
            DbFailure::CheckViolation(detail) => detail,
            DbFailure::Other(detail) => detail,
        }
    }
}

/// What a statement that must change a row reports: the number of rows it
/// changed, or how it failed. No row changed means that the subject does
/// not exist.
pub fn changed(result: Result<u64, DbFailure>, what: &str) -> (report: Result<(), RepositoryError>)
    ensures
        match result {
            Ok(rows) => if rows == 0 {
                report matches Err(RepositoryError::NotFound { what: subject }) && subject@ == what@
            } else {
                report is Ok
            },
            Err(failure) => report == Err::<(), RepositoryError>(
                RepositoryError::InternalServerError(failure.detail()),
            ),
        },
{
    match result {
        Ok(rows) => {
            if rows == 0 {
                Err(RepositoryError::NotFound { what: what.to_string() })
            } else {
                Ok(())
            }
        },
        Err(failure) => Err(RepositoryError::InternalServerError(failure.into_detail())),
    }
}

/// What a query for one row reports: the row, or that the subject does not
/// exist, or how the query failed.
pub fn fetched<T>(result: Result<Option<T>, DbFailure>, what: &str) -> (report: Result<
    T,
    RepositoryError,
>)
    ensures
        match result {
            Ok(Some(row)) => report == Ok::<T, RepositoryError>(row),
            Ok(None) => report matches Err(RepositoryError::NotFound { what: subject }) && subject@
                == what@,
            Err(failure) => report == Err::<T, RepositoryError>(
                RepositoryError::InternalServerError(failure.detail()),
            ),
        },
{
    match result {
        Ok(Some(row)) => Ok(row),
        Ok(None) => Err(RepositoryError::NotFound { what: what.to_string() }),
        Err(failure) => Err(RepositoryError::InternalServerError(failure.into_detail())),
    }
}

/// What an insert reports: a broken unique constraint means that the
/// subject exists already; every other failure is the server's own.
pub fn inserted(result: Result<(), DbFailure>, what: &str) -> (report: Result<(), RepositoryError>)
    ensures
        match result {
            Ok(()) => report is Ok,
            Err(DbFailure::UniqueViolation(_)) => report matches Err(
                RepositoryError::AlreadyExists { what: subject },
            ) && subject@ == what@,
            Err(failure) => report == Err::<(), RepositoryError>(
                RepositoryError::InternalServerError(failure.detail()),
            ),
        },
{
    match result {
        Ok(()) => Ok(()),
        Err(DbFailure::UniqueViolation(_)) => Err(
            RepositoryError::AlreadyExists { what: what.to_string() },
        ),
        Err(failure) => Err(RepositoryError::InternalServerError(failure.into_detail())),
    }
}

} // verus!
