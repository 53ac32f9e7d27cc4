//! The persistence layer's rules: what the outcome of a statement means.
//!
//! The statements themselves run elsewhere; each function here takes what a
//! statement gave and says what the repository reports.

pub mod game_repository;
pub mod outcome;
pub mod session_repository;
pub mod user_repository;

pub use outcome::DbFailure;
