//! Fluent construction of game and user records.

pub mod game_builder;
pub mod user_builder;

pub use game_builder::GameBuilder;
pub use user_builder::UserBuilder;
