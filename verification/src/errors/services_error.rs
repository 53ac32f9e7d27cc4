//! Errors of the service layer, and how a persistence error becomes one.

use vstd::prelude::*;
use vstd::std_specs::convert::FromSpecImpl;
use vstd::string::StringExecFns;
use crate::errors::repository_error::RepositoryError;
use crate::text::{decimal, decimal_text, join};

verus! {

/// What a service reports when an operation fails.
#[derive(Debug, Clone, PartialEq, Eq)]
pub enum ServicesError {
    InternalServerError(String),
    InvalidInput { field: String, message: String },
    NotFound { what: String },
    AlreadyExists { what: String },
    UnableToDelete { what: String },
    UnableToSerialize { what: String },
    UnableToDeserialize { what: String },
    AuthenticationFailed { reason: String },
}

/// `out` is the service error that stands for the persistence error `err`:
/// each kind keeps its subject, an invalid input or limit names the field
/// and says what is wrong with it.
pub open spec fn carries_repository_error(err: RepositoryError, out: ServicesError) -> bool {
    match err {
        RepositoryError::NotFound { what } => out == (ServicesError::NotFound { what }),
        RepositoryError::AlreadyExists { what } => out == (ServicesError::AlreadyExists { what }),
        RepositoryError::InternalServerError(detail) => out == ServicesError::InternalServerError(
            detail,
        ),
        RepositoryError::InvalidInput { what } => {
            &&& out matches ServicesError::InvalidInput { field, message }
            &&& field == what
            &&& message@ == "is invalid"@
        },
        RepositoryError::InvalidLimit { low, high } => {
            &&& out matches ServicesError::InvalidInput { field, message }
            &&& field@ == "limit"@
            &&& message@ == "must be greater or equal to "@ + decimal(low as int)
                + " and less or equal to "@ + decimal(high as int)
        },
        RepositoryError::SerializationError(detail) => out == (ServicesError::UnableToSerialize {
            what: detail,
        }),
        RepositoryError::DeserializationError(detail) => out == (
        ServicesError::UnableToDeserialize { what: detail }),
    }
}

impl ServicesError {
    /// The message of the error.
    pub open spec fn text(self) -> Seq<char> {
        match self {
            ServicesError::InternalServerError(detail) => "internal server error: "@ + detail@,
            ServicesError::InvalidInput { field, message } => "Invalid Input on field : "@ + field@
                + " , "@ + message@,
            ServicesError::NotFound { what } => what@ + " not found"@,
            ServicesError::AlreadyExists { what } => what@ + " already exists"@,
            ServicesError::UnableToDelete { what } => "unable to delete "@ + what@,
            ServicesError::UnableToSerialize { what } => "unable to serialize "@ + what@,
            ServicesError::UnableToDeserialize { what } => "unable to deserialize "@ + what@,
            ServicesError::AuthenticationFailed { reason } => "Authentication Failed : "@ + reason@,
        }
    }

    /// The message of the error.
    pub fn message(&self) -> (message: String)
        ensures
            message@ == self.text(),
    {
        match self {
            ServicesError::InternalServerError(detail) => join(
                "internal server error: ",
                detail.as_str(),
            ),
            ServicesError::InvalidInput { field, message } => {
                let mut text = join("Invalid Input on field : ", field.as_str());
                text.append(" , ");
                text.append(message.as_str());
                text
            },
            ServicesError::NotFound { what } => join(what.as_str(), " not found"),
            ServicesError::AlreadyExists { what } => join(what.as_str(), " already exists"),
            ServicesError::UnableToDelete { what } => join("unable to delete ", what.as_str()),
            ServicesError::UnableToSerialize { what } => join("unable to serialize ", what.as_str()),
            ServicesError::UnableToDeserialize { what } => join(
                "unable to deserialize ",
                what.as_str(),
            ),
            ServicesError::AuthenticationFailed { reason } => join(
                "Authentication Failed : ",
                reason.as_str(),
            ),
        }
    }
}

impl From<RepositoryError> for ServicesError {
    fn from(err: RepositoryError) -> (out: Self)
        ensures
            carries_repository_error(err, out),
    {
        match err {
            RepositoryError::NotFound { what } => ServicesError::NotFound { what },
            RepositoryError::AlreadyExists { what } => ServicesError::AlreadyExists { what },
            RepositoryError::InternalServerError(detail) => ServicesError::InternalServerError(
                detail,
            ),
            RepositoryError::InvalidInput { what } => ServicesError::InvalidInput {
                field: what,
                message: "is invalid".to_string(),
            },
            RepositoryError::InvalidLimit { low, high } => {
                let mut message = join("must be greater or equal to ", decimal_text(low).as_str());
                message.append(" and less or equal to ");
                message.append(decimal_text(high).as_str());
                ServicesError::InvalidInput { field: "limit".to_string(), message }
            },
            RepositoryError::SerializationError(detail) => ServicesError::UnableToSerialize {
                what: detail,
            },
            RepositoryError::DeserializationError(detail) => ServicesError::UnableToDeserialize {
                what: detail,
            },
        }
    }
}

/// The messages of a converted error are built when the conversion runs, so
/// the result is stated by the `ensures` of `from` and not as one value.
impl FromSpecImpl<RepositoryError> for ServicesError {
    open spec fn obeys_from_spec() -> bool {
        false
    }

    open spec fn from_spec(err: RepositoryError) -> Self {
        arbitrary()
    }
}

} // verus!
