//! Builder of recorded games.

use vstd::prelude::*;
use crate::action::{Action, ActionType};
use crate::models::game::{Game, GameView};
use crate::piece::PieceType;

verus! {

/// The actions of the shortest game: a start, one fall, the end.
pub open spec fn sample_actions() -> Seq<Action> {
    seq![
        Action { action_type: ActionType::Start, piece: PieceType::Cyan, timestamp: 0 },
        Action { action_type: ActionType::Fall, piece: PieceType::Cyan, timestamp: 1 },
        Action { action_type: ActionType::End, piece: PieceType::Void, timestamp: 2 },
    ]
}

/// Builds a recorded game step by step. A number that is not set is zero,
/// and the actions are those of the shortest game until they are set.
pub struct GameBuilder {
    pub game: Game,
}

impl GameBuilder {
    pub fn new(owner: &str) -> (builder: Self)
        ensures
            builder.game@ == (GameView {
                game_owner: owner@,
                game_score: 0,
                game_level: 0,
                game_lines: 0,
                game_actions: sample_actions(),
            }),
    {
        let mut actions: Vec<Action> = Vec::new();
        actions.push(Action { action_type: ActionType::Start, piece: PieceType::Cyan, timestamp: 0 });
        actions.push(Action { action_type: ActionType::Fall, piece: PieceType::Cyan, timestamp: 1 });
        actions.push(Action { action_type: ActionType::End, piece: PieceType::Void, timestamp: 2 });
        assert(actions@ =~= sample_actions());
        GameBuilder {
            game: Game {
                game_owner: owner.to_string(),
                game_score: 0,
                game_level: 0,
                game_lines: 0,
                game_actions: actions,
            },
        }
    }

    pub fn with_score(self, score: i32) -> (builder: Self)
        ensures
            builder.game == (Game { game_score: score, ..self.game }),
    {
        let mut builder = self;
        builder.game.game_score = score;
        builder
    }

    pub fn with_level(self, level: i32) -> (builder: Self)
        ensures
            builder.game == (Game { game_level: level, ..self.game }),
    {
        let mut builder = self;
        builder.game.game_level = level;
        builder
    }

    pub fn with_lines(self, lines: i32) -> (builder: Self)
        ensures
            builder.game == (Game { game_lines: lines, ..self.game }),
    {
        let mut builder = self;
        builder.game.game_lines = lines;
        builder
    }

    pub fn with_actions(self, actions: Vec<Action>) -> (builder: Self)
        ensures
            builder.game == (Game { game_actions: actions, ..self.game }),
    {
        let mut builder = self;
        builder.game.game_actions = actions;
        builder
    }

    pub fn build(self) -> (game: Game)
        ensures
            game == self.game,
    {
        self.game
    }
}

} // verus!
