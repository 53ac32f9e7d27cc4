//! The rules of the users table.

use vstd::prelude::*;
use crate::errors::repository_error::RepositoryError;
use crate::models::user::User;
use crate::repository::outcome::{changed, fetched, inserted, DbFailure};

verus! {

/// The fewest users a leaderboard may ask for, less one.
pub const LIMIT_LOW: i32 = 0;

/// The most users a leaderboard may ask for.
pub const LIMIT_HIGH: i32 = 100;

/// What the insert of a user reports. A name already taken is reported as
/// such, a name that the table's check refuses as invalid.
pub fn create_user(result: Result<(), DbFailure>) -> (report: Result<(), RepositoryError>)
    ensures
        match result {
            Ok(()) => report is Ok,
            Err(DbFailure::UniqueViolation(_)) => report matches Err(
                RepositoryError::AlreadyExists { what },
            ) && what@ == "User"@,
            Err(DbFailure::CheckViolation(_)) => report matches Err(
                RepositoryError::InvalidInput { what },
            ) && what@ == "User name"@,
            Err(DbFailure::Other(detail)) => report == Err::<(), RepositoryError>(
                RepositoryError::InternalServerError(detail),
            ),
        },
{
    match result {
        Err(DbFailure::CheckViolation(_)) => Err(
            RepositoryError::InvalidInput { what: "User name".to_string() },
        ),
        other => inserted(other, "User"),
    }
}

/// What the update of a user reports, from the number of rows changed.
pub fn update_user(result: Result<u64, DbFailure>) -> (report: Result<(), RepositoryError>)
    ensures
        match result {
            Ok(rows) => if rows == 0 {
                report matches Err(RepositoryError::NotFound { what }) && what@ == "User"@
            } else {
                report is Ok
            },
            Err(failure) => report == Err::<(), RepositoryError>(
                RepositoryError::InternalServerError(failure.detail()),
            ),
        },
{
    changed(result, "User")
}

/// What the query for a user by name reports.
pub fn get_user_by_name(result: Result<Option<User>, DbFailure>) -> (report: Result<
    User,
    RepositoryError,
>)
    ensures
        match result {
            Ok(Some(user)) => report == Ok::<User, RepositoryError>(user),
            Ok(None) => report matches Err(RepositoryError::NotFound { what }) && what@ == "User"@,
            Err(failure) => report == Err::<User, RepositoryError>(
                RepositoryError::InternalServerError(failure.detail()),
            ),
        },
{
    fetched(result, "User")
}

/// Whether a leaderboard of `limit` users may be asked for: the limit is
/// above `LIMIT_LOW` and at most `LIMIT_HIGH`.
pub fn check_top_limit(limit: i32) -> (report: Result<(), RepositoryError>)
    ensures
        report == if LIMIT_LOW < limit <= LIMIT_HIGH {
            Ok::<(), RepositoryError>(())
        } else {
            Err::<(), RepositoryError>(
                RepositoryError::InvalidLimit { low: LIMIT_LOW, high: LIMIT_HIGH },
            )
        },
{
    if limit <= LIMIT_LOW || limit > LIMIT_HIGH {
        return Err(RepositoryError::InvalidLimit { low: LIMIT_LOW, high: LIMIT_HIGH });
    }
    Ok(())
}

/// What the query for the best users reports.
pub fn get_top_users(result: Result<Vec<User>, DbFailure>) -> (report: Result<
    Vec<User>,
    RepositoryError,
>)
    ensures
        match result {
            Ok(users) => report == Ok::<Vec<User>, RepositoryError>(users),
            Err(failure) => report == Err::<Vec<User>, RepositoryError>(
                RepositoryError::InternalServerError(failure.detail()),
            ),
        },
{
    match result {
        Ok(users) => Ok(users),
        Err(failure) => Err(RepositoryError::InternalServerError(failure.into_detail())),
    }
}

/// What the deletion of a user reports, from the number of rows changed.
pub fn delete_user(result: Result<u64, DbFailure>) -> (report: Result<(), RepositoryError>)
    ensures
        match result {
            Ok(rows) => if rows == 0 {
                report matches Err(RepositoryError::NotFound { what }) && what@ == "User"@
            } else {
                report is Ok
            },
            Err(failure) => report == Err::<(), RepositoryError>(
                RepositoryError::InternalServerError(failure.detail()),
            ),
        },
{
    changed(result, "User")
}

} // verus!
