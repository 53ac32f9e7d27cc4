//! The rules of the authentication service: where the identity provider is
//! asked, what its failures mean, how a user and a session come to exist,
//! and the cookies that carry a session.

use vstd::prelude::*;
use crate::config::AuthConfig;
use crate::errors::app_error::AppError;
use crate::errors::repository_error::RepositoryError;
use crate::errors::services_error::ServicesError;
use crate::models::user::User;
use crate::services::session_service::{hash_session_id, hmac_sha256_hex};
use crate::text::join;

verus! {

/// The number of days that a session cookie lasts.
pub const COOKIE_DAYS: i64 = 7;

/// The same-site policy of a cookie.
#[derive(Debug, Clone, Copy, PartialEq, Eq, Structural)]
pub enum SameSite {
    Strict,
    Lax,
    NoPolicy,
}

/// A cookie as plain values.
#[derive(Debug, Clone, PartialEq, Eq)]
pub struct SessionCookie {
    pub name: String,
    pub value: String,
    pub path: String,
    pub http_only: bool,
    pub secure: bool,
    pub same_site: SameSite,
    /// The age in days after which the cookie expires, or `None` for a
    /// cookie that lasts as long as the browser session.
    pub max_age_days: Option<i64>,
}

/// The service that authenticates users, over the repositories of users
/// and sessions.
#[derive(Clone)]
pub struct AuthService<T, S> {
    pub user_repository: T,
    pub session_repository: S,
    pub config: AuthConfig,
}

impl<T, S> AuthService<T, S> {
    pub fn new(user_repository: T, session_repository: S, config: AuthConfig) -> (service: Self)
        ensures
            service.user_repository == user_repository,
            service.session_repository == session_repository,
            service.config == config,
    {
        AuthService { user_repository, session_repository, config }
    }

    /// The hash under which the session with this identifier is stored:
    /// its keyed hash under the session secret of the service.
    pub fn hash_session_id(&self, session_id: &str) -> (hash: String)
        ensures
            hash@ == hmac_sha256_hex(self.config.session_secret_key@, session_id@),
    {
        hash_session_id(self.config.session_secret_key.as_str(), session_id)
    }

    /// The address at which a code is exchanged for an access token: that
    /// of the provider, or under the test address where one is set.
    pub fn token_url(&self) -> (url: String)
        ensures
            url@ == match self.config.github_test_url {
                Some(base) => base@ + "/login/oauth/access_token"@,
                None => "https://github.com/login/oauth/access_token"@,
            },
    {
        match &self.config.github_test_url {
            Some(base) => join(base.as_str(), "/login/oauth/access_token"),
            None => "https://github.com/login/oauth/access_token".to_string(),
        }
    }

    /// The address at which an access token is exchanged for the user's
    /// profile: that of the provider, or under the test address where one
    /// is set.
    pub fn user_url(&self) -> (url: String)
        ensures
            url@ == match self.config.github_test_url {
                Some(base) => base@ + "/user"@,
                None => "https://api.github.com/user"@,
            },
    {
        match &self.config.github_test_url {
            Some(base) => join(base.as_str(), "/user"),
            None => "https://api.github.com/user".to_string(),
        }
    }

    /// A fresh session identifier together with the hash under which the
    /// session is stored.
    pub fn new_session(&self) -> (session: (String, String))
        ensures
            session.1@ == hmac_sha256_hex(self.config.session_secret_key@, session.0@),
    {
        let session_id = random_id();
        let session_hash = self.hash_session_id(session_id.as_str());
        (session_id, session_hash)
    }

    /// The cookie that carries a session: for the whole site, hidden from
    /// scripts, secure in production, lax across sites, good for a week.
    pub fn create_cookies(&self, session_id: &str) -> (cookie: SessionCookie)
        ensures
            cookie.name@ == "session_id"@,
            cookie.value@ == session_id@,
            cookie.path@ == "/"@,
            cookie.http_only,
            cookie.secure == self.config.production,
            cookie.same_site == SameSite::Lax,
            cookie.max_age_days == Some(COOKIE_DAYS),
    {
        SessionCookie {
            name: "session_id".to_string(),
            value: session_id.to_string(),
            path: "/".to_string(),
            http_only: true,
            secure: self.config.production,
            same_site: SameSite::Lax,
            max_age_days: Some(COOKIE_DAYS),
        }
    }

    /// The cookie that ends a session: the session cookie with an empty
    /// value and no age.
    pub fn logout_cookies(&self) -> (cookie: SessionCookie)
        ensures
            cookie.name@ == "session_id"@,
            cookie.value@ == Seq::<char>::empty(),
            cookie.path@ == "/"@,
            cookie.http_only,
            cookie.secure == self.config.production,
            cookie.same_site == SameSite::Lax,
            cookie.max_age_days is None,
    {
        SessionCookie {
            name: "session_id".to_string(),
            value: String::new(),
            path: "/".to_string(),
            http_only: true,
            secure: self.config.production,
            same_site: SameSite::Lax,
            max_age_days: None,
        }
    }
}

/// The value of the authorisation header that presents an access token.
pub fn bearer(access_token: &str) -> (value: String)
    ensures
        value@ == "Bearer "@ + access_token@,
{
    join("Bearer ", access_token)
}

/// What is reported where the exchange of the code for an access token
/// could not be made.
pub fn token_exchange_failed(detail: &str) -> (err: ServicesError)
    ensures
        err matches ServicesError::AuthenticationFailed { reason } && reason@
            == "access token exchange failed : "@ + detail@,
{
    ServicesError::AuthenticationFailed { reason: join("access token exchange failed : ", detail) }
}

/// What is reported where the exchange of the access token for the user's
/// profile could not be made.
pub fn user_exchange_failed(detail: &str) -> (err: ServicesError)
    ensures
        err matches ServicesError::AuthenticationFailed { reason } && reason@
            == "user info exchange failed : "@ + detail@,
{
    ServicesError::AuthenticationFailed { reason: join("user info exchange failed : ", detail) }
}

/// What is reported where an answer of the provider cannot be read as
/// `what`.
pub fn unreadable(what: &str) -> (err: ServicesError)
    ensures
        err matches ServicesError::UnableToDeserialize { what: subject } && subject@ == what@,
{
    ServicesError::UnableToDeserialize { what: what.to_string() }
}

/// What follows the lookup of a user who has authenticated.
#[derive(Debug, Clone, PartialEq, Eq)]
pub enum UserStep {
    /// The user exists.
    Known,
    /// The user does not exist and is to be created.
    Create,
    /// The lookup failed; authentication fails with this error.
    Failed(ServicesError),
}

/// Decides what follows the lookup of a user who has authenticated.
pub fn ensure_user_exists(lookup: Result<User, RepositoryError>) -> (step: UserStep)
    ensures
        match lookup {
            Ok(_) => step == UserStep::Known,
            Err(RepositoryError::NotFound { what }) => step == UserStep::Create,
            Err(err) => step matches UserStep::Failed(
                ServicesError::AuthenticationFailed { reason },
            ) && reason@ == "Database error: "@ + err.text(),
        },
{
    match lookup {
        Ok(_) => UserStep::Known,
        Err(RepositoryError::NotFound { what: _ }) => UserStep::Create,
        Err(err) => UserStep::Failed(
            ServicesError::AuthenticationFailed {
                reason: join("Database error: ", err.message().as_str()),
            },
        ),
    }
}

/// What the creation of a user who has authenticated reports.
pub fn user_created(result: Result<(), RepositoryError>) -> (report: Result<(), ServicesError>)
    ensures
        match result {
            Ok(()) => report is Ok,
            Err(err) => report matches Err(ServicesError::AuthenticationFailed { reason })
                && reason@ == "Failed to create user: "@ + err.text(),
        },
{
    match result {
        Ok(()) => Ok(()),
        Err(err) => Err(
            ServicesError::AuthenticationFailed {
                reason: join("Failed to create user: ", err.message().as_str()),
            },
        ),
    }
}

/// `Uuid::new_v4` of the `uuid` crate, written out as text: a fresh random
/// identifier. It draws on the system's source of randomness, so nothing is
/// claimed of its value.
#[verifier::external_body]
fn random_id() -> String {
    uuid::Uuid::new_v4().to_string()
}

/// What the creation of the session of a user who has authenticated
/// reports: the identifier of the session, or why authentication failed.
pub fn session_created(result: Result<(), RepositoryError>, session_id: String) -> (report: Result<
    String,
    ServicesError,
>)
    ensures
        match result {
            Ok(()) => report == Ok::<String, ServicesError>(session_id),
            Err(err) => report matches Err(ServicesError::AuthenticationFailed { reason })
                && reason@ == "Failed to create session: "@ + err.text(),
        },
{
    match result {
        Ok(()) => Ok(session_id),
        Err(err) => Err(
            ServicesError::AuthenticationFailed {
                reason: join("Failed to create session: ", err.message().as_str()),
            },
        ),
    }
}

/// What a client is told where authentication failed.
pub fn authentication_failed(err: &ServicesError) -> (out: AppError)
    ensures
        out matches AppError::AuthenticationFailed(text) && text@ == err.text(),
{
    AppError::AuthenticationFailed(err.message())
}

} // verus!
