//! Players and their sessions.

use vstd::prelude::*;
use vstd::utf8::encode_utf8;
use crate::errors::services_error::ServicesError;

verus! {

/// The shortest name a user may have, in bytes.
pub const NAME_MIN_BYTES: usize = 2;

/// The longest name a user may have, in bytes.
pub const NAME_MAX_BYTES: usize = 50;

/// A player with the aggregate statistics of their games.
#[derive(Debug, Clone, PartialEq, Eq)]
pub struct User {
    pub name: String,
    pub number_of_games: i32,
    pub best_score: i32,
    pub highest_level: i32,
}

/// A user as mathematical values.
pub struct UserView {
    pub name: Seq<char>,
    pub number_of_games: int,
    pub best_score: int,
    pub highest_level: int,
}

impl View for User {
    type V = UserView;

    open spec fn view(&self) -> UserView {
        UserView {
            name: self.name@,
            number_of_games: self.number_of_games as int,
            best_score: self.best_score as int,
            highest_level: self.highest_level as int,
        }
    }
}

/// An authenticated session: the name of its user and its identifier.
#[derive(Debug, Clone, PartialEq, Eq)]
pub struct Session {
    pub name: String,
    pub session_id: String,
}

/// The length in bytes of the UTF-8 encoding of a text, as `str::len`
/// reports it.
pub open spec fn byte_len(text: Seq<char>) -> usize {
    encode_utf8(text).len() as usize
}

/// The first rule that the user breaks, as the field at fault and the
/// message, or `None` for a valid user. The name is measured in bytes of
/// its UTF-8 encoding.
pub open spec fn user_fault(user: UserView) -> Option<(Seq<char>, Seq<char>)> {
    if byte_len(user.name) < NAME_MIN_BYTES {
        Some(("name"@, "Name must be at least 2 characters long"@))
    } else if byte_len(user.name) > NAME_MAX_BYTES {
        Some(("name"@, "Name cannot exceed 50 characters"@))
    } else if user.number_of_games < 0 {
        Some(("number_of_games"@, "Number of games cannot be negative"@))
    } else if user.best_score < 0 {
        Some(("best_score"@, "Best score cannot be negative"@))
    } else if user.highest_level < 0 {
        Some(("highest_level"@, "Highest level cannot be negative"@))
    } else {
        None
    }
}

impl User {
    /// Checks the user: the name has 2 to 50 bytes and no statistic is
    /// negative. The error names the first rule broken.
    pub fn validate(&self) -> (result: Result<(), ServicesError>)
        ensures
            match result {
                Ok(()) => user_fault(self@) is None,
                Err(ServicesError::InvalidInput { field, message }) => user_fault(self@) == Some(
                    (field@, message@),
                ),
                Err(_) => false,
            },
    {
        if self.name.as_str().len() < NAME_MIN_BYTES {
            return Err(
                ServicesError::InvalidInput {
                    field: "name".to_string(),
                    message: "Name must be at least 2 characters long".to_string(),
                },
            );
        }
        if self.name.as_str().len() > NAME_MAX_BYTES {
            return Err(
                ServicesError::InvalidInput {
                    field: "name".to_string(),
                    message: "Name cannot exceed 50 characters".to_string(),
                },
            );
        }
        if self.number_of_games < 0 {
            return Err(
                ServicesError::InvalidInput {
                    field: "number_of_games".to_string(),
                    message: "Number of games cannot be negative".to_string(),
                },
            );
        }
        if self.best_score < 0 {
            return Err(
                ServicesError::InvalidInput {
                    field: "best_score".to_string(),
                    message: "Best score cannot be negative".to_string(),
                },
            );
        }
        if self.highest_level < 0 {
            return Err(
                ServicesError::InvalidInput {
                    field: "highest_level".to_string(),
                    message: "Highest level cannot be negative".to_string(),
                },
            );
        }
        Ok(())
    }
}

} // verus!
