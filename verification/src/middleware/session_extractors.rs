//! From a request's session cookie to the session of its user.

use vstd::prelude::*;
use crate::errors::app_error::AppError;
use crate::errors::services_error::ServicesError;
use crate::models::user::Session;

verus! {

/// The name of the cookie that carries the session identifier.
pub fn session_cookie_name() -> (name: &'static str)
    ensures
        name@ == "session_id"@,
{
    "session_id"
}

/// What a request without a session cookie is answered.
pub fn missing_cookie() -> (err: AppError)
    ensures
        err == AppError::Unauthorized,
{
    AppError::Unauthorized
}

/// The session of a request, from the value of its session cookie and what
/// the lookup of that value gave. A value that names no session is not
/// authorised; any other failure of the lookup is the server's own.
pub fn extracted(cookie_value: &str, lookup: Result<Session, ServicesError>) -> (result: Result<
    Session,
    AppError,
>)
    ensures
        match lookup {
            Ok(found) => result matches Ok(session) && session.session_id@ == cookie_value@
                && session.name == found.name,
            Err(ServicesError::NotFound { what }) => result == Err::<Session, AppError>(
                AppError::Unauthorized,
            ),
            Err(_) => result matches Err(AppError::InternalServerError(text)) && text@
                == "Something went wrong"@,
        },
{
    match lookup {
        Ok(found) => Ok(Session { session_id: cookie_value.to_string(), name: found.name }),
        Err(ServicesError::NotFound { what: _ }) => Err(AppError::Unauthorized),
        Err(_) => Err(AppError::InternalServerError("Something went wrong".to_string())),
    }
}

} // verus!
