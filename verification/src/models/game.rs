//! Recorded games and the ways a game connection ends.

use vstd::prelude::*;
use crate::action::Action;

verus! {

/// The best game of a player, with the actions to replay it.
#[derive(Debug, Clone, PartialEq, Eq)]
pub struct Game {
    pub game_owner: String,
    pub game_score: i32,
    pub game_level: i32,
    pub game_lines: i32,
    pub game_actions: Vec<Action>,
}

/// A recorded game as mathematical values.
pub struct GameView {
    pub game_owner: Seq<char>,
    pub game_score: int,
    pub game_level: int,
    pub game_lines: int,
    pub game_actions: Seq<Action>,
}

impl View for Game {
    type V = GameView;

    open spec fn view(&self) -> GameView {
        GameView {
            game_owner: self.game_owner@,
            game_score: self.game_score as int,
            game_level: self.game_level as int,
            game_lines: self.game_lines as int,
            game_actions: self.game_actions@,
        }
    }
}

/// The final numbers of a recorded game.
#[derive(Debug, Clone, Copy, PartialEq, Eq, Structural)]
pub struct GameStats {
    pub game_score: i32,
    pub game_level: i32,
    pub game_lines: i32,
}

/// How a game ends. The engine refuses an illegal move silently, so a game
/// played through it ends with a score.
#[derive(Debug, Clone, PartialEq, Eq)]
pub enum GameResult {
    /// The final score, level and number of lines cleared.
    Score(i32, i32, i32),
    /// The game was stopped for a move that the rules forbid.
    IllegalMove(String),
}

/// Why the server closes a game connection.
#[derive(Debug, Clone, Copy, PartialEq, Eq, Structural)]
pub enum GameCloseReason {
    /// The game ended and its result was recorded.
    GameEnded,
    /// A message was not one frame long.
    InvalidMessageLength,
    /// The game was stopped for a move that the rules forbid.
    IllegalMove,
    /// The authenticated user has no record.
    NoUserFound,
    /// The result could not be recorded.
    InternalError,
}

impl GameCloseReason {
    /// The close code sent to the peer: normal closure for a game that
    /// ended, protocol error for a bad frame, policy violation for a
    /// forbidden move or an unknown user, internal error otherwise.
    pub open spec fn close_code(self) -> u16 {
        match self {
            GameCloseReason::GameEnded => 1000,
            GameCloseReason::InvalidMessageLength => 1002,
            GameCloseReason::IllegalMove => 1008,
            GameCloseReason::NoUserFound => 1008,
            GameCloseReason::InternalError => 1011,
        }
    }

    /// The words sent with the close code.
    pub open spec fn close_text(self) -> Seq<char> {
        match self {
            GameCloseReason::GameEnded => "Game ended"@,
            GameCloseReason::InvalidMessageLength => "Invalid message length"@,
            GameCloseReason::IllegalMove => "Illegal move"@,
            GameCloseReason::NoUserFound => "No user found"@,
            GameCloseReason::InternalError => "Internal error"@,
        }
    }

    /// The close code sent to the peer.
    pub fn code(&self) -> (code: u16)
        ensures
            code == self.close_code(),
    {
        match self {
            GameCloseReason::GameEnded => 1000,
            GameCloseReason::InvalidMessageLength => 1002,
            GameCloseReason::IllegalMove => 1008,
            GameCloseReason::NoUserFound => 1008,
            GameCloseReason::InternalError => 1011,
        }
    }

    /// The words sent with the close code.
    pub fn description(&self) -> (text: String)
        ensures
            text@ == self.close_text(),
    {
        match self {
            GameCloseReason::GameEnded => "Game ended".to_string(),
            GameCloseReason::InvalidMessageLength => "Invalid message length".to_string(),
            GameCloseReason::IllegalMove => "Illegal move".to_string(),
            GameCloseReason::NoUserFound => "No user found".to_string(),
            GameCloseReason::InternalError => "Internal error".to_string(),
        }
    }
}

} // verus!
