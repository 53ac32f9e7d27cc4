//! Errors of the request layer: what a client is told, and with which
//! status.

use vstd::prelude::*;
use vstd::std_specs::convert::FromSpecImpl;
use vstd::string::StringExecFns;
use crate::errors::services_error::ServicesError;
use crate::text::join;

verus! {

/// What a request handler answers when it fails.
#[derive(Debug, Clone, PartialEq, Eq)]
pub enum AppError {
    InternalServerError(String),
    BadRequest(String),
    Unauthorized,
    NotFound(String),
    Conflict(String),
    AuthenticationFailed(String),
    RateLimitExceeded,
}

/// `out` is the request error that stands for the service error `err`.
/// Failures of the server's own making are reported without their detail.
pub open spec fn carries_services_error(err: ServicesError, out: AppError) -> bool {
    match err {
        ServicesError::AuthenticationFailed { reason } => out == AppError::AuthenticationFailed(
            reason,
        ),
        ServicesError::InvalidInput { field, message } => {
            &&& out matches AppError::BadRequest(text)
            &&& text@ == "Invalid "@ + field@ + ": "@ + message@
        },
        ServicesError::NotFound { what } => {
            &&& out matches AppError::NotFound(text)
            &&& text@ == what@ + " not found"@
        },
        ServicesError::AlreadyExists { what } => {
            &&& out matches AppError::Conflict(text)
            &&& text@ == what@ + " already exists"@
        },
        ServicesError::UnableToDelete { what } => {
            &&& out matches AppError::InternalServerError(text)
            &&& text@ == "Something went wrong"@
        },
        ServicesError::UnableToSerialize { what } => {
            &&& out matches AppError::InternalServerError(text)
            &&& text@ == "Data processing error"@
        },
        ServicesError::UnableToDeserialize { what } => {
            &&& out matches AppError::InternalServerError(text)
            &&& text@ == "Data processing error"@
        },
        ServicesError::InternalServerError(detail) => {
            &&& out matches AppError::InternalServerError(text)
            &&& text@ == "Something went wrong"@
        },
    }
}

/// The plan of an error response: its status, its headers in order, and
/// its body.
pub struct ErrorResponse {
    pub status: u16,
    pub headers: Vec<(String, String)>,
    pub body: String,
}

impl AppError {
    /// The message of the error.
    pub open spec fn text(self) -> Seq<char> {
        match self {
            AppError::InternalServerError(detail) => "internal server error: "@ + detail@,
            AppError::BadRequest(detail) => "bad request: "@ + detail@,
            AppError::Unauthorized => "Authentication required"@,
            AppError::NotFound(detail) => "not found: "@ + detail@,
            AppError::Conflict(detail) => "conflict: "@ + detail@,
            AppError::AuthenticationFailed(detail) => "authentication failed: "@ + detail@,
            AppError::RateLimitExceeded => "Rate limit exceeded"@,
        }
    }

    /// The HTTP status code of the error.
    pub open spec fn status(self) -> u16 {
        match self {
            AppError::InternalServerError(_) => 500,
            AppError::BadRequest(_) => 400,
            AppError::Unauthorized => 401,
            AppError::NotFound(_) => 404,
            AppError::Conflict(_) => 409,
            AppError::AuthenticationFailed(_) => 401,
            AppError::RateLimitExceeded => 429,
        }
    }

    /// The message of the error.
    pub fn message(&self) -> (message: String)
        ensures
            message@ == self.text(),
    {
        match self {
            AppError::InternalServerError(detail) => join(
                "internal server error: ",
                detail.as_str(),
            ),
            AppError::BadRequest(detail) => join("bad request: ", detail.as_str()),
            AppError::Unauthorized => "Authentication required".to_string(),
            AppError::NotFound(detail) => join("not found: ", detail.as_str()),
            AppError::Conflict(detail) => join("conflict: ", detail.as_str()),
            AppError::AuthenticationFailed(detail) => join(
                "authentication failed: ",
                detail.as_str(),
            ),
            AppError::RateLimitExceeded => "Rate limit exceeded".to_string(),
        }
    }

    /// The HTTP status code of the error.
    pub fn status_code(&self) -> (status: u16)
        ensures
            status == self.status(),
    {
        match self {
            AppError::InternalServerError(_) => 500,
            AppError::BadRequest(_) => 400,
            AppError::Unauthorized => 401,
            AppError::NotFound(_) => 404,
            AppError::Conflict(_) => 409,
            AppError::AuthenticationFailed(_) => 401,
            AppError::RateLimitExceeded => 429,
        }
    }

    /// The response that reports the error. A refused request for want of
    /// tokens is told the limit, that nothing remains, and when to retry,
    /// with a JSON body; every other error is answered with its status, a
    /// JSON content type and its message.
    pub fn error_response(&self) -> (response: ErrorResponse)
        ensures
            response.status == self.status(),
            self is RateLimitExceeded ==> {
                &&& response.headers@.len() == 4
                &&& response.headers@[3].0@ == "Content-Type"@
                &&& response.headers@[3].1@ == "application/json"@
                &&& response.headers@[0].0@ == "X-RateLimit-Limit"@
                &&& response.headers@[0].1@ == "100"@
                &&& response.headers@[1].0@ == "X-RateLimit-Remaining"@
                &&& response.headers@[1].1@ == "0"@
                &&& response.headers@[2].0@ == "Retry-After"@
                &&& response.headers@[2].1@ == "10"@
                &&& response.body@ == "{\"error\":\"Rate limit exceeded\"}"@
            },
            !(self is RateLimitExceeded) ==> {
                &&& response.headers@.len() == 1
                &&& response.headers@[0].0@ == "Content-Type"@
                &&& response.headers@[0].1@ == "application/json"@
                &&& response.body@ == self.text()
            },
    {
        match self {
            AppError::RateLimitExceeded => {
                let mut headers: Vec<(String, String)> = Vec::new();
                headers.push(("X-RateLimit-Limit".to_string(), "100".to_string()));
                headers.push(("X-RateLimit-Remaining".to_string(), "0".to_string()));
                headers.push(("Retry-After".to_string(), "10".to_string()));
                headers.push(("Content-Type".to_string(), "application/json".to_string()));
                ErrorResponse {
                    status: self.status_code(),
                    headers,
                    body: "{\"error\":\"Rate limit exceeded\"}".to_string(),
                }
            },
            _ => {
                let mut headers: Vec<(String, String)> = Vec::new();
                headers.push(("Content-Type".to_string(), "application/json".to_string()));
                ErrorResponse { status: self.status_code(), headers, body: self.message() }
            },
        }
    }
}

impl From<ServicesError> for AppError {
    fn from(err: ServicesError) -> (out: AppError)
        ensures
            carries_services_error(err, out),
    {
        match err {
            ServicesError::AuthenticationFailed { reason } => AppError::AuthenticationFailed(
                reason,
            ),
            ServicesError::InvalidInput { field, message } => {
                let mut text = join("Invalid ", field.as_str());
                text.append(": ");
                text.append(message.as_str());
                AppError::BadRequest(text)
            },
            ServicesError::NotFound { what } => AppError::NotFound(
                join(what.as_str(), " not found"),
            ),
            ServicesError::AlreadyExists { what } => AppError::Conflict(
                join(what.as_str(), " already exists"),
            ),
            ServicesError::UnableToDelete { what: _ } => AppError::InternalServerError(
                "Something went wrong".to_string(),
            ),
            ServicesError::UnableToSerialize { what: _ } => AppError::InternalServerError(
                "Data processing error".to_string(),
            ),
            ServicesError::UnableToDeserialize { what: _ } => AppError::InternalServerError(
                "Data processing error".to_string(),
            ),
            ServicesError::InternalServerError(_) => AppError::InternalServerError(
                "Something went wrong".to_string(),
            ),
        }
    }
}

/// The messages of a converted error are built when the conversion runs, so
/// the result is stated by the `ensures` of `from` and not as one value.
impl FromSpecImpl<ServicesError> for AppError {
    open spec fn obeys_from_spec() -> bool {
        false
    }

    open spec fn from_spec(err: ServicesError) -> Self {
        arbitrary()
    }
}

} // verus!
