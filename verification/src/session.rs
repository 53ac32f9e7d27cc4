//! The session of one game connection as a state machine.
//!
//! The connection loop hands every message and every completed persistence
//! call to the session as an event, and carries out the command that the
//! session answers with. The session owns the engine and the log of the
//! actions played.

use vstd::prelude::*;
use crate::action::{decoded, Action, ActionType, FRAME_LEN};
use crate::builder::game_builder::GameBuilder;
use crate::builder::user_builder::UserBuilder;
use crate::engine::{
    initial_state, lemma_step_valid, outcome, step, valid_state, EngineState, GameEngine,
};
use crate::errors::services_error::ServicesError;
use crate::grid::{clamp, clamped};
use crate::models::game::{Game, GameCloseReason, GameResult, GameView};
use crate::models::user::{User, UserView};

verus! {

/// The byte that acknowledges a message.
pub const ACK: u8 = 0x00;

/// The most bytes that the continuation frames of one message may add up
/// to.
pub const MAX_MESSAGE_BYTES: usize = 1024;

/// Where a session stands.
#[derive(Debug, Clone, Copy, PartialEq, Eq, Structural)]
pub enum SessionPhase {
    /// The game is on: messages are played.
    Playing,
    /// The game has ended; the updated statistics are being recorded.
    SavingUser,
    /// The statistics are recorded; the replay is being recorded.
    SavingReplay,
    /// The session is over.
    Closed,
}

/// What happened on the connection.
#[derive(Debug, Clone, PartialEq, Eq)]
pub enum SessionEvent {
    /// A binary message arrived.
    Binary(Vec<u8>),
    /// The peer closed the connection.
    PeerClosed,
    /// A message of another kind arrived.
    Other,
    /// The update of the user's statistics finished, well or not.
    UserSaved(bool),
    /// The upsert of the replay finished, well or not.
    ReplaySaved(bool),
}

/// What the connection loop is to do next.
#[derive(Debug, Clone, PartialEq, Eq)]
pub enum SessionCommand {
    /// Wait for the next message.
    Continue,
    /// Send the acknowledgement byte, then wait for the next message.
    Ack,
    /// Record these statistics of the user, then report `UserSaved`.
    SaveUser(User),
    /// Record this game as the user's replay, then report `ReplaySaved`.
    SaveReplay(Game),
    /// Close the connection with this reason and stop.
    Close(GameCloseReason),
    /// Stop without a word to the peer.
    Stop,
}

/// A command as mathematical values.
pub enum CommandView {
    Continue,
    Ack,
    SaveUser(UserView),
    SaveReplay(GameView),
    Close(GameCloseReason),
    Stop,
}

impl View for SessionCommand {
    type V = CommandView;

    open spec fn view(&self) -> CommandView {
        match self {
            SessionCommand::Continue => CommandView::Continue,
            SessionCommand::Ack => CommandView::Ack,
            SessionCommand::SaveUser(user) => CommandView::SaveUser(user@),
            SessionCommand::SaveReplay(game) => CommandView::SaveReplay(game@),
            SessionCommand::Close(reason) => CommandView::Close(*reason),
            SessionCommand::Stop => CommandView::Stop,
        }
    }
}

/// The state of a session as mathematical values.
pub struct SessionState {
    pub engine: EngineState,
    /// The user as recorded when the session began.
    pub user: UserView,
    /// The actions played so far, in order.
    pub log: Seq<Action>,
    pub phase: SessionPhase,
    /// The terminal result `(score, level, lines)`, once the game has ended.
    pub result: Option<(i32, i32, i32)>,
}

/// The statistics of a user after one more game with the given score and
/// level: one game more, and the better of the old and the new for the best
/// score and the highest level.
pub open spec fn updated_stats(user: UserView, score: int, level: int) -> UserView {
    UserView {
        name: user.name,
        number_of_games: clamped(user.number_of_games + 1),
        best_score: if user.best_score >= score {
            user.best_score
        } else {
            score
        },
        highest_level: if user.highest_level >= level {
            user.highest_level
        } else {
            level
        },
    }
}

/// The replay of a finished session.
pub open spec fn replay_of(s: SessionState) -> GameView {
    GameView {
        game_owner: s.user.name,
        game_score: s.result.unwrap().0 as int,
        game_level: s.result.unwrap().1 as int,
        game_lines: s.result.unwrap().2 as int,
        game_actions: s.log,
    }
}

/// The state after a binary message while the game is on.
pub open spec fn after_message(s: SessionState, message: Seq<u8>) -> SessionState {
    if message.len() != FRAME_LEN {
        SessionState { phase: SessionPhase::Closed, ..s }
    } else {
        let action = decoded(message);
        if action.action_type == ActionType::Ping {
            s
        } else {
            let result = outcome(s.engine, action);
            SessionState {
                engine: step(s.engine, action),
                log: s.log.push(action),
                phase: if result is Some {
                    SessionPhase::SavingUser
                } else {
                    SessionPhase::Playing
                },
                result,
                ..s
            }
        }
    }
}

/// The command that answers a binary message while the game is on.
pub open spec fn answer_to_message(s: SessionState, message: Seq<u8>) -> CommandView {
    if message.len() != FRAME_LEN {
        CommandView::Close(GameCloseReason::InvalidMessageLength)
    } else {
        let action = decoded(message);
        if action.action_type == ActionType::Ping {
            CommandView::Ack
        } else {
            match outcome(s.engine, action) {
                Some(result) => CommandView::SaveUser(
                    updated_stats(s.user, result.0 as int, result.1 as int),
                ),
                None => CommandView::Ack,
            }
        }
    }
}

/// The state after an event.
pub open spec fn after_event(s: SessionState, event: SessionEvent) -> SessionState {
    match s.phase {
        SessionPhase::Playing => match event {
            SessionEvent::Binary(message) => after_message(s, message@),
            SessionEvent::PeerClosed => SessionState { phase: SessionPhase::Closed, ..s },
            _ => s,
        },
        SessionPhase::SavingUser => match event {
            SessionEvent::UserSaved(saved) => if saved && s.result.unwrap().0 > s.user.best_score {
                SessionState { phase: SessionPhase::SavingReplay, ..s }
            } else {
                SessionState { phase: SessionPhase::Closed, ..s }
            },
            _ => s,
        },
        SessionPhase::SavingReplay => match event {
            SessionEvent::ReplaySaved(_) => SessionState { phase: SessionPhase::Closed, ..s },
            _ => s,
        },
        SessionPhase::Closed => s,
    }
}

/// The command that answers an event.
pub open spec fn answer_to_event(s: SessionState, event: SessionEvent) -> CommandView {
    match s.phase {
        SessionPhase::Playing => match event {
            SessionEvent::Binary(message) => answer_to_message(s, message@),
            SessionEvent::PeerClosed => CommandView::Stop,
            _ => CommandView::Continue,
        },
        SessionPhase::SavingUser => match event {
            SessionEvent::UserSaved(saved) => if !saved {
                CommandView::Close(GameCloseReason::InternalError)
            } else if s.result.unwrap().0 > s.user.best_score {
                CommandView::SaveReplay(replay_of(s))
            } else {
                CommandView::Close(GameCloseReason::GameEnded)
            },
            _ => CommandView::Continue,
        },
        SessionPhase::SavingReplay => match event {
            SessionEvent::ReplaySaved(saved) => if saved {
                CommandView::Close(GameCloseReason::GameEnded)
            } else {
                CommandView::Close(GameCloseReason::InternalError)
            },
            _ => CommandView::Continue,
        },
        SessionPhase::Closed => CommandView::Stop,
    }
}

/// The state of a session that has just begun for `user`.
pub open spec fn opening_state(user: UserView) -> SessionState {
    SessionState {
        engine: initial_state(),
        user,
        log: Seq::empty(),
        phase: SessionPhase::Playing,
        result: None,
    }
}

/// A state that a session can be in: the engine state is valid, and the
/// terminal result is known exactly while it is being recorded.
pub open spec fn valid_session(s: SessionState) -> bool {
    &&& valid_state(s.engine)
    &&& s.phase == SessionPhase::Playing ==> s.result is None
    &&& s.phase == SessionPhase::SavingUser || s.phase == SessionPhase::SavingReplay
        ==> s.result is Some
}

/// A message that is not one frame long closes a session that is playing,
/// with the reason that says so; no action is made of it, so the log and
/// the game stay as they are.
pub proof fn lemma_bad_length_closes(s: SessionState, message: Vec<u8>)
    requires
        s.phase == SessionPhase::Playing,
        message@.len() != FRAME_LEN,
    ensures
        answer_to_event(s, SessionEvent::Binary(message)) == CommandView::Close(
            GameCloseReason::InvalidMessageLength,
        ),
        after_event(s, SessionEvent::Binary(message)) == (SessionState {
            phase: SessionPhase::Closed,
            ..s
        }),
{
}

/// A closed session stays closed: every event leaves it as it is and is
/// answered with `Stop`.
pub proof fn lemma_closed_is_final(s: SessionState, event: SessionEvent)
    requires
        s.phase == SessionPhase::Closed,
    ensures
        after_event(s, event) == s,
        answer_to_event(s, event) == CommandView::Stop,
{
}

/// The terminal result is produced once: when it is known no event changes
/// it, and no event adds to the log of the game.
pub proof fn lemma_result_is_final(s: SessionState, event: SessionEvent)
    requires
        valid_session(s),
        s.result is Some,
    ensures
        after_event(s, event).result == s.result,
        after_event(s, event).log == s.log,
        after_event(s, event).engine == s.engine,
{
}

/// Every event takes a valid session to a valid session.
pub proof fn lemma_session_valid(s: SessionState, event: SessionEvent)
    requires
        valid_session(s),
    ensures
        valid_session(after_event(s, event)),
{
    if s.phase == SessionPhase::Playing {
        if let SessionEvent::Binary(message) = event {
            if message@.len() == FRAME_LEN {
                lemma_step_valid(s.engine, decoded(message@));
            }
        }
    }
}

/// A ping is acknowledged and goes no further: the game and its log stay
/// as they are.
pub proof fn lemma_ping_is_acknowledged(s: SessionState, message: Vec<u8>)
    requires
        s.phase == SessionPhase::Playing,
        message@.len() == FRAME_LEN,
        message@[0] == 0xFF,
    ensures
        answer_to_event(s, SessionEvent::Binary(message)) == CommandView::Ack,
        after_event(s, SessionEvent::Binary(message)) == s,
{
}

/// The session of one game connection.
pub struct GameSession {
    engine: GameEngine,
    user: User,
    actions: Vec<Action>,
    phase: SessionPhase,
    result: Option<(i32, i32, i32)>,
}

impl View for GameSession {
    type V = SessionState;

    closed spec fn view(&self) -> SessionState {
        SessionState {
            engine: self.engine@,
            user: self.user@,
            log: self.actions@,
            phase: self.phase,
            result: self.result,
        }
    }
}

impl GameSession {
    /// The invariant of the session.
    pub closed spec fn wf(&self) -> bool {
        &&& self.engine.wf()
        &&& valid_session(self@)
    }

    /// Begins the session of the user that the lookup found. Where the
    /// lookup failed no engine is made, and the connection is to be closed
    /// for want of a user.
    pub fn open(lookup: Result<User, ServicesError>) -> (opened: Result<Self, GameCloseReason>)
        ensures
            match opened {
                Ok(session) => lookup is Ok && session.wf() && session@ == opening_state(
                    lookup->Ok_0@,
                ),
                Err(reason) => lookup is Err && reason == GameCloseReason::NoUserFound,
            },
    {
        match lookup {
            Ok(user) => {
                let engine = GameEngine::new();
                proof {
                    engine.lemma_wf_valid();
                }
                Ok(
                    GameSession {
                        engine,
                        user,
                        actions: Vec::new(),
                        phase: SessionPhase::Playing,
                        result: None,
                    },
                )
            },
            Err(_) => Err(GameCloseReason::NoUserFound),
        }
    }

    /// Where the session stands.
    pub fn phase(&self) -> (phase: SessionPhase)
        ensures
            phase == self@.phase,
    {
        self.phase
    }

    /// The terminal result, once the game has ended.
    pub fn result(&self) -> (result: Option<GameResult>)
        ensures
            match result {
                Some(GameResult::Score(score, level, lines)) => self@.result == Some(
                    (score, level, lines),
                ),
                Some(GameResult::IllegalMove(_)) => false,
                None => self@.result is None,
            },
    {
        match self.result {
            Some((score, level, lines)) => Some(GameResult::Score(score, level, lines)),
            None => None,
        }
    }

    /// The actions played so far.
    pub fn actions(&self) -> (actions: &Vec<Action>)
        ensures
            actions@ == self@.log,
    {
        &self.actions
    }

    /// The engine of the session.
    pub fn engine(&self) -> (engine: &GameEngine)
        ensures
            engine@ == self@.engine,
            self.wf() ==> engine.wf(),
    {
        &self.engine
    }

    /// Takes one event and answers with the next command.
    ///
    /// While the game is on, a binary message that is not one frame long
    /// closes the connection; a ping is acknowledged and goes no further;
    /// every other action is played and logged, and acknowledged unless it
    /// ends the game. When the game ends the updated statistics are to be
    /// recorded, then the replay if the score beats the user's best, then
    /// the connection closes; a failure to record closes it at once. A peer
    /// that closes first ends the session with nothing recorded.
    pub fn handle_event(&mut self, event: SessionEvent) -> (command: SessionCommand)
        requires
            old(self).wf(),
        ensures
            final(self).wf(),
            final(self)@ == after_event(old(self)@, event),
            command@ == answer_to_event(old(self)@, event),
    {
        match self.phase {
            SessionPhase::Playing => match event {
                SessionEvent::Binary(message) => self.handle_message(message.as_slice()),
                SessionEvent::PeerClosed => {
                    self.phase = SessionPhase::Closed;
                    SessionCommand::Stop
                },
                _ => SessionCommand::Continue,
            },
            SessionPhase::SavingUser => match event {
                SessionEvent::UserSaved(saved) => {
                    let (score, level, lines) = self.result.unwrap();
                    if !saved {
                        self.phase = SessionPhase::Closed;
                        SessionCommand::Close(GameCloseReason::InternalError)
                    } else if score > self.user.best_score {
                        self.phase = SessionPhase::SavingReplay;
                        let game = GameBuilder::new(self.user.name.as_str()).with_score(
                            score,
                        ).with_level(level).with_lines(lines).with_actions(
                            self.actions.clone(),
                        ).build();
                        assert(game@.game_actions =~= self@.log);
                        SessionCommand::SaveReplay(game)
                    } else {
                        self.phase = SessionPhase::Closed;
                        SessionCommand::Close(GameCloseReason::GameEnded)
                    }
                },
                _ => SessionCommand::Continue,
            },
            SessionPhase::SavingReplay => match event {
                SessionEvent::ReplaySaved(saved) => {
                    self.phase = SessionPhase::Closed;
                    if saved {
                        SessionCommand::Close(GameCloseReason::GameEnded)
                    } else {
                        SessionCommand::Close(GameCloseReason::InternalError)
                    }
                },
                _ => SessionCommand::Continue,
            },
            SessionPhase::Closed => SessionCommand::Stop,
        }
    }

    /// Takes one binary message while the game is on.
    fn handle_message(&mut self, message: &[u8]) -> (command: SessionCommand)
        requires
            old(self).wf(),
            old(self)@.phase == SessionPhase::Playing,
        ensures
            final(self).wf(),
            final(self)@ == after_message(old(self)@, message@),
            command@ == answer_to_message(old(self)@, message@),
    {
        let action = match Action::from_frame(message) {
            Some(action) => action,
            None => {
                self.phase = SessionPhase::Closed;
                return SessionCommand::Close(GameCloseReason::InvalidMessageLength);
            },
        };
        if action.action_type == ActionType::Ping {
            return SessionCommand::Ack;
        }
        let result = self.engine.handle_action(&action);
        proof {
            self.engine.lemma_wf_valid();
        }
        self.actions.push(action);
        match result {
            Some((score, level, _)) => {
                self.phase = SessionPhase::SavingUser;
                self.result = result;
                let games = clamp(self.user.number_of_games as i64 + 1);
                let best = if self.user.best_score >= score {
                    self.user.best_score
                } else {
                    score
                };
                let highest = if self.user.highest_level >= level {
                    self.user.highest_level
                } else {
                    level
                };
                let updated = UserBuilder::new(self.user.name.as_str()).with_games(
                    games,
                ).with_score(best).with_level(highest).build();
                SessionCommand::SaveUser(updated)
            },
            None => SessionCommand::Ack,
        }
    }
}

} // verus!
