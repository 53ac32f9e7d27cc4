//! The rules of the user service.

use vstd::prelude::*;
use vstd::string::StringExecFns;
use crate::errors::repository_error::RepositoryError;
use crate::errors::services_error::ServicesError;
use crate::models::user::{byte_len, user_fault, User, NAME_MAX_BYTES, NAME_MIN_BYTES};
use crate::text::{decimal, decimal_text, join};

verus! {

/// The number of users on the leaderboard.
pub const LEADERBOARD_SIZE: i32 = 3;

/// The service of the users, over the repository that stores them.
#[derive(Clone)]
pub struct UserService<T> {
    pub user_repo: T,
}

impl<T> UserService<T> {
    pub fn new(user_repo: T) -> (service: Self)
        ensures
            service.user_repo == user_repo,
    {
        UserService { user_repo }
    }
}

/// `out` reports the persistence error `err` as the server's own failure,
/// with the message of `err`.
pub open spec fn internal(err: RepositoryError, out: ServicesError) -> bool {
    out matches ServicesError::InternalServerError(text) && text@ == err.text()
}

/// The persistence error as the server's own failure.
pub fn as_internal(err: &RepositoryError) -> (out: ServicesError)
    ensures
        internal(*err, out),
{
    ServicesError::InternalServerError(err.message())
}

/// What is wrong with the name of a new user, if anything: the message for
/// a name of fewer than 2 or more than 50 bytes.
pub open spec fn name_fault(name: Seq<char>) -> Option<Seq<char>> {
    if byte_len(name) < NAME_MIN_BYTES {
        Some("must be at least 2 characters long"@)
    } else if byte_len(name) > NAME_MAX_BYTES {
        Some("must be less than 50 characters long"@)
    } else {
        None
    }
}

/// Checks the name of a new user before the user is created.
pub fn check_name(name: &str) -> (result: Result<(), ServicesError>)
    ensures
        match result {
            Ok(()) => name_fault(name@) is None,
            Err(ServicesError::InvalidInput { field, message }) => field@ == "name"@ && name_fault(
                name@,
            ) == Some(message@),
            Err(_) => false,
        },
{
    if name.len() < NAME_MIN_BYTES {
        return Err(
            ServicesError::InvalidInput {
                field: "name".to_string(),
                message: "must be at least 2 characters long".to_string(),
            },
        );
    }
    if name.len() > NAME_MAX_BYTES {
        return Err(
            ServicesError::InvalidInput {
                field: "name".to_string(),
                message: "must be less than 50 characters long".to_string(),
            },
        );
    }
    Ok(())
}

/// What the creation of a user reports: a user that exists already is
/// reported as such, every other failure as the server's own.
pub fn create(result: Result<(), RepositoryError>) -> (report: Result<(), ServicesError>)
    ensures
        match result {
            Ok(()) => report is Ok,
            Err(RepositoryError::AlreadyExists { what }) => report == Err::<(), ServicesError>(
                ServicesError::AlreadyExists { what },
            ),
            Err(err) => report is Err && internal(err, report->Err_0),
        },
{
    match result {
        Ok(()) => Ok(()),
        Err(RepositoryError::AlreadyExists { what }) => Err(ServicesError::AlreadyExists { what }),
        Err(err) => Err(as_internal(&err)),
    }
}

/// What a request that needs an existing subject reports: a missing subject
/// is reported as such, every other failure as the server's own. This is
/// the rule of an update and of a lookup by name.
pub fn existing<T>(result: Result<T, RepositoryError>) -> (report: Result<T, ServicesError>)
    ensures
        match result {
            Ok(value) => report == Ok::<T, ServicesError>(value),
            Err(RepositoryError::NotFound { what }) => report == Err::<T, ServicesError>(
                ServicesError::NotFound { what },
            ),
            Err(err) => report is Err && internal(err, report->Err_0),
        },
{
    match result {
        Ok(value) => Ok(value),
        Err(RepositoryError::NotFound { what }) => Err(ServicesError::NotFound { what }),
        Err(err) => Err(as_internal(&err)),
    }
}

/// Checks a user before it is updated.
pub fn check_update(user: &User) -> (result: Result<(), ServicesError>)
    ensures
        match result {
            Ok(()) => user_fault(user@) is None,
            Err(ServicesError::InvalidInput { field, message }) => user_fault(user@) == Some(
                (field@, message@),
            ),
            Err(_) => false,
        },
{
    user.validate()
}

/// What the query for the best users reports: a limit out of range is an
/// invalid input that names the range, every other failure the server's
/// own.
pub fn get_top(result: Result<Vec<User>, RepositoryError>) -> (report: Result<
    Vec<User>,
    ServicesError,
>)
    ensures
        match result {
            Ok(users) => report == Ok::<Vec<User>, ServicesError>(users),
            Err(RepositoryError::InvalidLimit { low, high }) => {
                &&& report matches Err(ServicesError::InvalidInput { field, message })
                &&& field@ == "limit"@
                &&& message@ == "Limit must be greater or equal to "@ + decimal(low as int)
                    + " and less or equal to "@ + decimal(high as int)
            },
            Err(err) => report is Err && internal(err, report->Err_0),
        },
{
    match result {
        Ok(users) => Ok(users),
        Err(RepositoryError::InvalidLimit { low, high }) => {
            let mut message = join(
                "Limit must be greater or equal to ",
                decimal_text(low).as_str(),
            );
            message.append(" and less or equal to ");
            message.append(decimal_text(high).as_str());
            Err(ServicesError::InvalidInput { field: "limit".to_string(), message })
        },
        Err(err) => Err(as_internal(&err)),
    }
}

/// What a deletion reports: a subject that does not exist could not be
/// deleted, every other failure is the server's own.
pub fn delete(result: Result<(), RepositoryError>) -> (report: Result<(), ServicesError>)
    ensures
        match result {
            Ok(()) => report is Ok,
            Err(RepositoryError::NotFound { what }) => report == Err::<(), ServicesError>(
                ServicesError::UnableToDelete { what },
            ),
            Err(err) => report is Err && internal(err, report->Err_0),
        },
{
    match result {
        Ok(()) => Ok(()),
        Err(RepositoryError::NotFound { what }) => Err(ServicesError::UnableToDelete { what }),
        Err(err) => Err(as_internal(&err)),
    }
}

} // verus!
