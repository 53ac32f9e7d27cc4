//! Builder of user records.

use vstd::prelude::*;
use crate::models::user::{User, UserView};

verus! {

/// Builds a user step by step; a field that is not set is zero.
pub struct UserBuilder {
    pub user: User,
}

impl UserBuilder {
    pub fn new(name: &str) -> (builder: Self)
        ensures
            builder.user@ == (UserView {
                name: name@,
                number_of_games: 0,
                best_score: 0,
                highest_level: 0,
            }),
    {
        UserBuilder {
            user: User { name: name.to_string(), best_score: 0, highest_level: 0, number_of_games: 0 },
        }
    }

    pub fn with_score(self, score: i32) -> (builder: Self)
        ensures
            builder.user == (User { best_score: score, ..self.user }),
    {
        let mut builder = self;
        builder.user.best_score = score;
        builder
    }

    pub fn with_level(self, level: i32) -> (builder: Self)
        ensures
            builder.user == (User { highest_level: level, ..self.user }),
    {
        let mut builder = self;
        builder.user.highest_level = level;
        builder
    }

    pub fn with_games(self, games: i32) -> (builder: Self)
        ensures
            builder.user == (User { number_of_games: games, ..self.user }),
    {
        let mut builder = self;
        builder.user.number_of_games = games;
        builder
    }

    pub fn build(self) -> (user: User)
        ensures
            user == self.user,
    {
        self.user
    }
}

} // verus!
