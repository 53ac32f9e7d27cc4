//! The rules of the session service. A session is stored under the keyed
//! hash of its identifier, never under the identifier itself.

use hmac::{Hmac, Mac};
use sha2::Sha256;
use vstd::prelude::*;
use crate::errors::repository_error::RepositoryError;
use crate::config::SessionConfig;
use crate::errors::services_error::ServicesError;
use crate::models::user::Session;
use crate::services::user_service;
use crate::services::user_service::internal;

verus! {

/// The HMAC-SHA256 of `message` under `key`, both taken as the bytes of
/// their UTF-8 encoding, written as 64 lower-case hexadecimal digits.
pub uninterp spec fn hmac_sha256_hex(key: Seq<char>, message: Seq<char>) -> Seq<char>;

/// Computes the keyed hash with the `hmac` and `sha2` crates: a MAC is made
/// from the key by `Mac::new_from_slice`, which takes a key of any length,
/// fed the message by `Mac::update`, closed by `Mac::finalize`, and its
/// bytes written in lower-case hexadecimal. The result is a function of the
/// key and the message alone; that it is the named hash is taken on trust.
#[verifier::external_body]
fn keyed_hash(key: &str, message: &str) -> (digest: String)
    ensures
        digest@ == hmac_sha256_hex(key@, message@),
{
    let mut mac = Hmac::<Sha256>::new_from_slice(key.as_bytes()).expect(
        "HMAC can take key of any size",
    );
    mac.update(message.as_bytes());
    format!("{:x}", mac.finalize().into_bytes())
}

/// The hash under which the session with this identifier is stored, for
/// a given secret key.
pub fn hash_session_id(secret_key: &str, session_id: &str) -> (hash: String)
    ensures
        hash@ == hmac_sha256_hex(secret_key@, session_id@),
{
    keyed_hash(secret_key, session_id)
}

/// The service of the sessions, over the repository that stores them.
#[derive(Clone)]
pub struct SessionService<T> {
    pub session_repo: T,
    pub config: SessionConfig,
}

impl<T> SessionService<T> {
    pub fn new(session_repo: T, config: SessionConfig) -> (service: Self)
        ensures
            service.session_repo == session_repo,
            service.config == config,
    {
        SessionService { session_repo, config }
    }

    /// The hash under which the session with this identifier is stored:
    /// its keyed hash under the secret key of the service.
    pub fn hash_session_id(&self, session_id: &str) -> (hash: String)
        ensures
            hash@ == hmac_sha256_hex(self.config.secret_key@, session_id@),
    {
        hash_session_id(self.config.secret_key.as_str(), session_id)
    }
}

/// What the creation of a session reports: a session that exists already
/// is reported as such, every other failure as the server's own.
pub fn create(result: Result<(), RepositoryError>) -> (report: Result<(), ServicesError>)
    ensures
        match result {
            Ok(()) => report is Ok,
            Err(RepositoryError::AlreadyExists { what }) => report == Err::<(), ServicesError>(
                ServicesError::AlreadyExists { what },
            ),
            Err(err) => report is Err && internal(err, report->Err_0),
        },
{
    user_service::create(result)
}

/// What the lookup of a session reports: a session that does not exist is
/// reported as such, every other failure as the server's own.
pub fn get_by_id(result: Result<Session, RepositoryError>) -> (report: Result<
    Session,
    ServicesError,
>)
    ensures
        match result {
            Ok(session) => report == Ok::<Session, ServicesError>(session),
            Err(RepositoryError::NotFound { what }) => report == Err::<Session, ServicesError>(
                ServicesError::NotFound { what },
            ),
            Err(err) => report is Err && internal(err, report->Err_0),
        },
{
    user_service::existing(result)
}

/// What the deletion of a session reports: a session that does not exist
/// could not be deleted, every other failure is the server's own.
pub fn delete(result: Result<(), RepositoryError>) -> (report: Result<(), ServicesError>)
    ensures
        match result {
            Ok(()) => report is Ok,
            Err(RepositoryError::NotFound { what }) => report == Err::<(), ServicesError>(
                ServicesError::UnableToDelete { what },
            ),
            Err(err) => report is Err && internal(err, report->Err_0),
        },
{
    user_service::delete(result)
}

} // verus!
