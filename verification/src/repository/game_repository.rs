//! The rules of the games table.

use vstd::prelude::*;
use crate::action::Action;
use crate::errors::repository_error::RepositoryError;
use crate::models::game::{Game, GameStats};
use crate::repository::outcome::{changed, fetched, DbFailure};

verus! {

/// A row of the games table whose actions have been read back, or could
/// not be.
pub struct GameRow {
    pub game_owner: String,
    pub game_score: i32,
    pub game_level: i32,
    pub game_lines: i32,
    /// The actions of the game, or `None` where the stored value does not
    /// hold a list of actions.
    pub game_actions: Option<Vec<Action>>,
}

/// What is reported where the actions of a game cannot be written out for
/// storage.
pub fn serialization_failed() -> (err: RepositoryError)
    ensures
        err matches RepositoryError::SerializationError(text) && text@
            == "Failed to serialize game actions"@,
{
    RepositoryError::SerializationError("Failed to serialize game actions".to_string())
}

/// What the upsert of a game reports, from the number of rows changed: an
/// upsert that changed no row has failed.
pub fn upsert_game(result: Result<u64, DbFailure>) -> (report: Result<(), RepositoryError>)
    ensures
        match result {
            Ok(rows) => if rows == 0 {
                report matches Err(RepositoryError::InternalServerError(text)) && text@
                    == "Failed to upsert game"@
            } else {
                report is Ok
            },
            Err(failure) => report == Err::<(), RepositoryError>(
                RepositoryError::InternalServerError(failure.detail()),
            ),
        },
{
    match result {
        Ok(rows) => {
            if rows == 0 {
                Err(RepositoryError::InternalServerError("Failed to upsert game".to_string()))
            } else {
                Ok(())
            }
        },
        Err(failure) => Err(RepositoryError::InternalServerError(failure.into_detail())),
    }
}

/// What the query for the game of an owner reports: the game with its
/// actions, or that there is none, or that its actions cannot be read.
pub fn get_game_by_owner(result: Result<Option<GameRow>, DbFailure>) -> (report: Result<
    Game,
    RepositoryError,
>)
    ensures
        match result {
            Ok(Some(row)) => match row.game_actions {
                Some(actions) => report == Ok::<Game, RepositoryError>(
                    Game {
                        game_owner: row.game_owner,
                        game_score: row.game_score,
                        game_level: row.game_level,
                        game_lines: row.game_lines,
                        game_actions: actions,
                    },
                ),
                None => report matches Err(RepositoryError::DeserializationError(text)) && text@
                    == "Failed to deserialize game actions"@,
            },
            Ok(None) => report matches Err(RepositoryError::NotFound { what }) && what@ == "Game"@,
            Err(failure) => report == Err::<Game, RepositoryError>(
                RepositoryError::InternalServerError(failure.detail()),
            ),
        },
{
    match fetched(result, "Game") {
        Ok(row) => match row.game_actions {
            Some(actions) => Ok(
                Game {
                    game_owner: row.game_owner,
                    game_score: row.game_score,
                    game_level: row.game_level,
                    game_lines: row.game_lines,
                    game_actions: actions,
                },
            ),
            None => Err(
                RepositoryError::DeserializationError(
                    "Failed to deserialize game actions".to_string(),
                ),
            ),
        },
        Err(err) => Err(err),
    }
}

/// What the query for the numbers of the game of an owner reports.
pub fn get_game_stats_by_owner(result: Result<Option<GameStats>, DbFailure>) -> (report: Result<
    GameStats,
    RepositoryError,
>)
    ensures
        match result {
            Ok(Some(stats)) => report == Ok::<GameStats, RepositoryError>(stats),
            Ok(None) => report matches Err(RepositoryError::NotFound { what }) && what@ == "Game"@,
            Err(failure) => report == Err::<GameStats, RepositoryError>(
                RepositoryError::InternalServerError(failure.detail()),
            ),
        },
{
    fetched(result, "Game")
}

/// What the deletion of a game reports, from the number of rows changed.
pub fn delete_game(result: Result<u64, DbFailure>) -> (report: Result<(), RepositoryError>)
    ensures
        match result {
            Ok(rows) => if rows == 0 {
                report matches Err(RepositoryError::NotFound { what }) && what@ == "Game"@
            } else {
                report is Ok
            },
            Err(failure) => report == Err::<(), RepositoryError>(
                RepositoryError::InternalServerError(failure.detail()),
            ),
        },
{
    changed(result, "Game")
}

} // verus!
