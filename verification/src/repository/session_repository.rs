//! The rules of the sessions table.

use vstd::prelude::*;
use crate::errors::repository_error::RepositoryError;
use crate::models::user::Session;
use crate::repository::outcome::{changed, fetched, inserted, DbFailure};

verus! {

/// What the insert of a session reports.
pub fn create_session(result: Result<(), DbFailure>) -> (report: Result<(), RepositoryError>)
    ensures
        match result {
            Ok(()) => report is Ok,
            Err(DbFailure::UniqueViolation(_)) => report matches Err(
                RepositoryError::AlreadyExists { what },
            ) && what@ == "Session"@,
            Err(failure) => report == Err::<(), RepositoryError>(
                RepositoryError::InternalServerError(failure.detail()),
            ),
        },
{
    inserted(result, "Session")
}

/// What the query for a session by its hashed identifier reports.
pub fn get_session_by_id(result: Result<Option<Session>, DbFailure>) -> (report: Result<
    Session,
    RepositoryError,
>)
    ensures
        match result {
            Ok(Some(session)) => report == Ok::<Session, RepositoryError>(session),
            Ok(None) => report matches Err(RepositoryError::NotFound { what }) && what@
                == "Session"@,
            Err(failure) => report == Err::<Session, RepositoryError>(
                RepositoryError::InternalServerError(failure.detail()),
            ),
        },
{
    fetched(result, "Session")
}

/// What the deletion of a session reports, by identifier or by user name,
/// from the number of rows changed.
pub fn delete_session(result: Result<u64, DbFailure>) -> (report: Result<(), RepositoryError>)
    ensures
        match result {
            Ok(rows) => if rows == 0 {
                report matches Err(RepositoryError::NotFound { what }) && what@ == "Session"@
            } else {
                report is Ok
            },
            Err(failure) => report == Err::<(), RepositoryError>(
                RepositoryError::InternalServerError(failure.detail()),
            ),
        },
{
    changed(result, "Session")
}

} // verus!
