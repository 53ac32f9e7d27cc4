use tetronix::action::{Action, ActionType};
use tetronix::errors::ServicesError;
use tetronix::models::{Game, GameCloseReason, GameResult, User};
use tetronix::piece::PieceType;
use tetronix::session::{GameSession, SessionCommand, SessionEvent, SessionPhase, ACK};

fn user(best_score: i32) -> User {
    User { name: "alice".to_string(), number_of_games: 3, best_score, highest_level: 2 }
}

fn open(best_score: i32) -> GameSession {
    match GameSession::open(Ok(user(best_score))) {
        Ok(session) => session,
        Err(reason) => panic!("no session: {:?}", reason),
    }
}

fn frame(action_type: ActionType, piece: PieceType, timestamp: i64) -> SessionEvent {
    SessionEvent::Binary(Action { action_type, piece, timestamp }.encode())
}

#[test]
fn the_acknowledgement_is_one_zero_byte() {
    assert_eq!(ACK, 0x00);
}

#[test]
fn no_session_without_a_user() {
    let lookup = Err(ServicesError::NotFound { what: "User".to_string() });
    match GameSession::open(lookup) {
        Ok(_) => panic!("a session was opened"),
        Err(reason) => assert_eq!(reason, GameCloseReason::NoUserFound),
    }
    let lookup = Err(ServicesError::InternalServerError("down".to_string()));
    assert!(matches!(GameSession::open(lookup), Err(GameCloseReason::NoUserFound)));
}

#[test]
fn a_new_session_is_playing() {
    let session = open(0);
    assert_eq!(session.phase(), SessionPhase::Playing);
    assert_eq!(session.result(), None);
    assert!(session.actions().is_empty());
    assert_eq!(session.engine().score(), 0);
    assert_eq!(session.engine().level(), 1);
}

#[test]
fn a_short_message_closes_the_session() {
    let mut session = open(0);
    let command = session.handle_event(SessionEvent::Binary(vec![0u8; 9]));
    assert_eq!(command, SessionCommand::Close(GameCloseReason::InvalidMessageLength));
    assert_eq!(session.phase(), SessionPhase::Closed);
    assert!(session.actions().is_empty());
    assert_eq!(session.result(), None);
}

#[test]
fn a_long_message_closes_the_session() {
    let mut session = open(0);
    let command = session.handle_event(SessionEvent::Binary(vec![0u8; 11]));
    assert_eq!(command, SessionCommand::Close(GameCloseReason::InvalidMessageLength));
    assert_eq!(session.phase(), SessionPhase::Closed);
    assert!(session.actions().is_empty());
    assert_eq!(session.handle_event(frame(ActionType::Start, PieceType::Cyan, 1)), SessionCommand::Stop);
    assert!(session.actions().is_empty());
}

#[test]
fn close_codes() {
    assert_eq!(GameCloseReason::GameEnded.code(), 1000);
    assert_eq!(GameCloseReason::InvalidMessageLength.code(), 1002);
    assert_eq!(GameCloseReason::IllegalMove.code(), 1008);
    assert_eq!(GameCloseReason::NoUserFound.code(), 1008);
    assert_eq!(GameCloseReason::InternalError.code(), 1011);
    assert_eq!(GameCloseReason::GameEnded.description(), "Game ended");
    assert_eq!(GameCloseReason::InvalidMessageLength.description(), "Invalid message length");
    assert_eq!(GameCloseReason::IllegalMove.description(), "Illegal move");
    assert_eq!(GameCloseReason::NoUserFound.description(), "No user found");
    assert_eq!(GameCloseReason::InternalError.description(), "Internal error");
}

#[test]
fn a_ping_is_acknowledged_and_not_logged() {
    let mut session = open(0);
    assert_eq!(session.handle_event(frame(ActionType::Ping, PieceType::Cyan, 5)), SessionCommand::Ack);
    assert!(session.actions().is_empty());
    assert_eq!(session.phase(), SessionPhase::Playing);
    assert_eq!(session.engine().current_piece().color, "yellow");
}

#[test]
fn an_action_is_played_logged_and_acknowledged() {
    let mut session = open(0);
    assert_eq!(session.handle_event(frame(ActionType::Start, PieceType::Cyan, 10)), SessionCommand::Ack);
    assert_eq!(session.handle_event(frame(ActionType::Fall, PieceType::Void, 11)), SessionCommand::Ack);
    assert_eq!(session.engine().cursor(), (1, 4));
    assert_eq!(session.engine().current_piece().color, "cyan");
    assert_eq!(
        session.actions(),
        &vec![
            Action { action_type: ActionType::Start, piece: PieceType::Cyan, timestamp: 10 },
            Action { action_type: ActionType::Fall, piece: PieceType::Void, timestamp: 11 },
        ]
    );
}

#[test]
fn a_refused_move_is_still_logged() {
    let mut session = open(0);
    for step in 0..6 {
        assert_eq!(session.handle_event(frame(ActionType::Left, PieceType::Void, step)), SessionCommand::Ack);
    }
    assert_eq!(session.engine().cursor(), (0, 0));
    assert_eq!(session.actions().len(), 6);
}

#[test]
fn an_unknown_kind_ends_the_game() {
    let mut session = open(0);
    let command = session.handle_event(SessionEvent::Binary(vec![0x10, 0, 0, 0, 0, 0, 0, 0, 0, 7]));
    assert!(matches!(command, SessionCommand::SaveUser(_)));
    assert_eq!(session.phase(), SessionPhase::SavingUser);
    assert_eq!(
        session.actions(),
        &vec![Action { action_type: ActionType::End, piece: PieceType::Cyan, timestamp: 7 }]
    );
}

#[test]
fn other_messages_are_passed_over() {
    let mut session = open(0);
    assert_eq!(session.handle_event(SessionEvent::Other), SessionCommand::Continue);
    assert_eq!(session.handle_event(SessionEvent::UserSaved(true)), SessionCommand::Continue);
    assert_eq!(session.handle_event(SessionEvent::ReplaySaved(false)), SessionCommand::Continue);
    assert_eq!(session.phase(), SessionPhase::Playing);
    assert!(session.actions().is_empty());
}

#[test]
fn a_peer_that_leaves_ends_the_session_with_nothing_recorded() {
    let mut session = open(0);
    session.handle_event(frame(ActionType::Start, PieceType::Cyan, 1));
    assert_eq!(session.handle_event(SessionEvent::PeerClosed), SessionCommand::Stop);
    assert_eq!(session.phase(), SessionPhase::Closed);
    assert_eq!(session.result(), None);
    assert_eq!(session.handle_event(SessionEvent::UserSaved(true)), SessionCommand::Stop);
}

#[test]
fn start_then_end_records_the_user_and_closes() {
    let mut session = open(50);
    assert_eq!(session.handle_event(frame(ActionType::Start, PieceType::Cyan, 1)), SessionCommand::Ack);
    let command = session.handle_event(frame(ActionType::End, PieceType::Void, 2));
    let expected =
        User { name: "alice".to_string(), number_of_games: 4, best_score: 50, highest_level: 2 };
    assert_eq!(command, SessionCommand::SaveUser(expected));
    assert_eq!(session.result(), Some(GameResult::Score(0, 1, 0)));
    assert_eq!(session.phase(), SessionPhase::SavingUser);
    assert_eq!(session.actions().len(), 2);
    let command = session.handle_event(SessionEvent::UserSaved(true));
    assert_eq!(command, SessionCommand::Close(GameCloseReason::GameEnded));
    assert_eq!(session.phase(), SessionPhase::Closed);
    assert_eq!(session.result(), Some(GameResult::Score(0, 1, 0)));
}

#[test]
fn a_better_score_records_the_replay() {
    let mut session = open(100);
    session.handle_event(frame(ActionType::Start, PieceType::Yellow, 1));
    session.handle_event(frame(ActionType::HardDrop, PieceType::Void, 2));
    let command = session.handle_event(frame(ActionType::End, PieceType::Void, 3));
    let updated =
        User { name: "alice".to_string(), number_of_games: 4, best_score: 180, highest_level: 2 };
    assert_eq!(command, SessionCommand::SaveUser(updated));
    let command = session.handle_event(SessionEvent::UserSaved(true));
    let replay = Game {
        game_owner: "alice".to_string(),
        game_score: 180,
        game_level: 1,
        game_lines: 0,
        game_actions: vec![
            Action { action_type: ActionType::Start, piece: PieceType::Yellow, timestamp: 1 },
            Action { action_type: ActionType::HardDrop, piece: PieceType::Void, timestamp: 2 },
            Action { action_type: ActionType::End, piece: PieceType::Void, timestamp: 3 },
        ],
    };
    assert_eq!(command, SessionCommand::SaveReplay(replay));
    assert_eq!(session.phase(), SessionPhase::SavingReplay);
    let command = session.handle_event(SessionEvent::ReplaySaved(true));
    assert_eq!(command, SessionCommand::Close(GameCloseReason::GameEnded));
    assert_eq!(session.phase(), SessionPhase::Closed);
    assert_eq!(session.handle_event(SessionEvent::ReplaySaved(true)), SessionCommand::Stop);
}

#[test]
fn an_equal_score_records_no_replay() {
    let mut session = open(180);
    session.handle_event(frame(ActionType::Start, PieceType::Yellow, 1));
    session.handle_event(frame(ActionType::HardDrop, PieceType::Void, 2));
    let command = session.handle_event(frame(ActionType::End, PieceType::Void, 3));
    let updated =
        User { name: "alice".to_string(), number_of_games: 4, best_score: 180, highest_level: 2 };
    assert_eq!(command, SessionCommand::SaveUser(updated));
    let command = session.handle_event(SessionEvent::UserSaved(true));
    assert_eq!(command, SessionCommand::Close(GameCloseReason::GameEnded));
}

#[test]
fn a_failure_to_record_the_user_closes_at_once() {
    let mut session = open(0);
    session.handle_event(frame(ActionType::Start, PieceType::Yellow, 1));
    session.handle_event(frame(ActionType::HardDrop, PieceType::Void, 2));
    session.handle_event(frame(ActionType::End, PieceType::Void, 3));
    let command = session.handle_event(SessionEvent::UserSaved(false));
    assert_eq!(command, SessionCommand::Close(GameCloseReason::InternalError));
    assert_eq!(session.phase(), SessionPhase::Closed);
}

#[test]
fn a_failure_to_record_the_replay_closes_with_an_error() {
    let mut session = open(0);
    session.handle_event(frame(ActionType::Start, PieceType::Yellow, 1));
    session.handle_event(frame(ActionType::HardDrop, PieceType::Void, 2));
    session.handle_event(frame(ActionType::End, PieceType::Void, 3));
    assert!(matches!(session.handle_event(SessionEvent::UserSaved(true)), SessionCommand::SaveReplay(_)));
    let command = session.handle_event(SessionEvent::ReplaySaved(false));
    assert_eq!(command, SessionCommand::Close(GameCloseReason::InternalError));
    assert_eq!(session.phase(), SessionPhase::Closed);
}

#[test]
fn messages_wait_while_the_result_is_recorded() {
    let mut session = open(0);
    session.handle_event(frame(ActionType::End, PieceType::Void, 3));
    assert_eq!(session.phase(), SessionPhase::SavingUser);
    assert_eq!(session.handle_event(frame(ActionType::Fall, PieceType::Void, 4)), SessionCommand::Continue);
    assert_eq!(session.handle_event(SessionEvent::PeerClosed), SessionCommand::Continue);
    assert_eq!(session.actions().len(), 1);
    assert_eq!(session.phase(), SessionPhase::SavingUser);
}

#[test]
fn the_highest_level_and_the_games_played_are_kept_up() {
    let veteran = User {
        name: "bob".to_string(),
        number_of_games: i32::MAX,
        best_score: 10,
        highest_level: 0,
    };
    let mut session = match GameSession::open(Ok(veteran)) {
        Ok(session) => session,
        Err(_) => panic!("no session"),
    };
    let command = session.handle_event(frame(ActionType::End, PieceType::Void, 3));
    let expected = User {
        name: "bob".to_string(),
        number_of_games: i32::MAX,
        best_score: 10,
        highest_level: 1,
    };
    assert_eq!(command, SessionCommand::SaveUser(expected));
}
