//! Errors of the persistence layer.

use vstd::prelude::*;
use vstd::string::StringExecFns;
use crate::text::{decimal, decimal_text, join};

verus! {

/// What a repository reports when an operation fails.
#[derive(Debug, Clone, PartialEq, Eq)]
pub enum RepositoryError {
    NotFound { what: String },
    AlreadyExists { what: String },
    InternalServerError(String),
    InvalidInput { what: String },
    InvalidLimit { low: i32, high: i32 },
    SerializationError(String),
    DeserializationError(String),
}

impl RepositoryError {
    /// The message of the error.
    pub open spec fn text(self) -> Seq<char> {
        match self {
            RepositoryError::NotFound { what } => what@ + " not found"@,
            RepositoryError::AlreadyExists { what } => what@ + " already exists"@,
            RepositoryError::InternalServerError(detail) => "internal server error: "@ + detail@,
            RepositoryError::InvalidInput { what } => what@ + " is invalid"@,
            RepositoryError::InvalidLimit { low, high } => "limit must be greater or equal to "@
                + decimal(low as int) + " and less or equal to "@ + decimal(high as int),
            RepositoryError::SerializationError(detail) => "serialization error: "@ + detail@,
            RepositoryError::DeserializationError(detail) => "deserialization error: "@ + detail@,
        }
    }

    /// The message of the error.
    pub fn message(&self) -> (message: String)
        ensures
            message@ == self.text(),
    {
        match self {
            RepositoryError::NotFound { what } => join(what.as_str(), " not found"),
            RepositoryError::AlreadyExists { what } => join(what.as_str(), " already exists"),
            RepositoryError::InternalServerError(detail) => join(
                "internal server error: ",
                detail.as_str(),
            ),
            RepositoryError::InvalidInput { what } => join(what.as_str(), " is invalid"),
            RepositoryError::InvalidLimit { low, high } => {
                let mut message = join(
                    "limit must be greater or equal to ",
                    decimal_text(*low).as_str(),
                );
                message.append(" and less or equal to ");
                message.append(decimal_text(*high).as_str());
                message
            },
            RepositoryError::SerializationError(detail) => join(
                "serialization error: ",
                detail.as_str(),
            ),
            RepositoryError::DeserializationError(detail) => join(
                "deserialization error: ",
                detail.as_str(),
            ),
        }
    }
}

} // verus!
