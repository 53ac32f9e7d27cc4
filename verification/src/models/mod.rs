//! The value types of the server.

pub mod game;
pub mod user;

pub use crate::action::{Action, ActionType};
pub use crate::grid::Grid;
pub use crate::piece::{Piece, PieceType};
pub use game::{Game, GameCloseReason, GameResult, GameStats};
pub use user::{Session, User};
