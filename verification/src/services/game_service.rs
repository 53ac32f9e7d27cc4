//! The rules of the game service.

use vstd::prelude::*;
use crate::errors::repository_error::RepositoryError;
use crate::errors::services_error::{carries_repository_error, ServicesError};

verus! {

/// The service of the recorded games, over the repository that stores them.
#[derive(Clone)]
pub struct GameService<T> {
    pub game_repository: T,
}

impl<T> GameService<T> {
    pub fn new(game_repository: T) -> (service: Self)
        ensures
            service.game_repository == game_repository,
    {
        GameService { game_repository }
    }
}

/// What a request for a game, for its numbers, or for its upsert reports:
/// the answer of the persistence layer, an error carried over kind by kind.
pub fn reported<T>(result: Result<T, RepositoryError>) -> (report: Result<T, ServicesError>)
    ensures
        match result {
            Ok(value) => report == Ok::<T, ServicesError>(value),
            Err(err) => report is Err && carries_repository_error(err, report->Err_0),
        },
{
    match result {
        Ok(value) => Ok(value),
        Err(err) => Err(ServicesError::from(err)),
    }
}

} // verus!
