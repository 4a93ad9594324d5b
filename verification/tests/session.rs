//! Single transitions, on sessions written out by hand.

use game_session::effects::{Delayed, Effects, Request};
use game_session::entry::{handle, handle_reply, init, state};
use game_session::machine::{
    get_game_status, handle_message_received, handle_waiting_state, has_game_lost, on_action,
    on_reply,
};
use game_session::model::{INITIAL_ATTEMPTS, TIMEOUT_BLOCKS, WORD_LENGTH};
use game_session::store::SessionStore;
use game_session::types::{
    Action, Event, GameResult, GameStatus, Session, SessionAction, SessionEvent, SessionStatus,
};
use gstd::ActorId;

fn user() -> ActorId {
    ActorId::from(10u64)
}

fn oracle() -> ActorId {
    ActorId::from(2u64)
}

fn session(status: SessionStatus, start: u32, attempts: u8) -> Session {
    Session {
        target_program_id: oracle(),
        session_status: status,
        start_block_height: start,
        attempts,
    }
}

fn guess(word: &str) -> SessionAction {
    SessionAction::CheckWord { user: user(), word: word.to_string() }
}

fn lost() -> SessionStatus {
    SessionStatus::GameEnded { result: GameResult::Lose }
}

fn won() -> SessionStatus {
    SessionStatus::GameEnded { result: GameResult::Win }
}

fn error(reason: &str) -> Effects {
    Effects {
        request: None,
        watchdog: None,
        reply: Some(SessionEvent::GameError(reason.to_string())),
    }
}

fn status(result: Option<GameResult>) -> Effects {
    Effects {
        request: None,
        watchdog: None,
        reply: Some(SessionEvent::GameStatus(GameStatus { game_result: result })),
    }
}

fn checked(correct: Vec<u8>, contained: Vec<u8>) -> Event {
    Event::WordChecked { user: user(), correct_positions: correct, contained_in_word: contained }
}

#[test]
fn constants_are_those_of_the_game() {
    assert_eq!(INITIAL_ATTEMPTS, 5);
    assert_eq!(TIMEOUT_BLOCKS, 200);
    assert_eq!(WORD_LENGTH, 5);
}

#[test]
fn fresh_session_waits_with_all_attempts() {
    let fresh = Session::new(oracle(), 42);
    assert_eq!(fresh, session(SessionStatus::Waiting, 42, 5));
    assert!(!fresh.has_ended());
}

#[test]
fn store_is_empty_until_a_session_is_saved() {
    let mut store = SessionStore::new();
    assert!(!store.is_initialized());
    store.save_session(session(SessionStatus::MessageSent, 7, 3));
    assert!(store.is_initialized());
    assert_eq!(store.load_session(), session(SessionStatus::MessageSent, 7, 3));
}

#[test]
fn save_replaces_the_whole_record() {
    let mut store = SessionStore::new();
    store.save_session(session(SessionStatus::Waiting, 7, 3));
    store.save_session(Session {
        target_program_id: ActorId::from(99u64),
        session_status: won(),
        start_block_height: 8,
        attempts: 1,
    });
    let loaded = store.load_session();
    assert_eq!(loaded.target_program_id, ActorId::from(99u64));
    assert_eq!(loaded.session_status, won());
    assert_eq!(loaded.start_block_height, 8);
    assert_eq!(loaded.attempts, 1);
}

#[test]
fn loaded_session_is_a_copy() {
    let mut store = SessionStore::new();
    store.save_session(session(SessionStatus::Waiting, 7, 3));
    let mut loaded = store.load_session();
    loaded.attempts = 0;
    loaded.session_status = lost();
    assert_eq!(store.load_session(), session(SessionStatus::Waiting, 7, 3));
}

#[test]
fn init_stores_a_fresh_session() {
    let mut store = SessionStore::new();
    init(&mut store, oracle(), 1000);
    assert_eq!(state(&store), session(SessionStatus::Waiting, 1000, 5));
}

#[test]
fn init_again_starts_over() {
    let mut store = SessionStore::new();
    store.save_session(session(lost(), 3, 0));
    init(&mut store, ActorId::from(77u64), 12);
    let fresh = state(&store);
    assert_eq!(fresh.target_program_id, ActorId::from(77u64));
    assert_eq!(fresh.session_status, SessionStatus::Waiting);
    assert_eq!(fresh.start_block_height, 12);
    assert_eq!(fresh.attempts, 5);
}

#[test]
fn timeout_begins_at_200_blocks() {
    let s = session(SessionStatus::Waiting, 100, 5);
    assert!(!has_game_lost(&s, 100));
    assert!(!has_game_lost(&s, 299));
    assert!(has_game_lost(&s, 300));
    assert!(has_game_lost(&s, 301));
    assert!(has_game_lost(&s, u32::MAX));
}

#[test]
fn height_before_the_start_is_no_timeout() {
    let s = session(SessionStatus::Waiting, 1000, 5);
    assert!(!has_game_lost(&s, 0));
    assert!(!has_game_lost(&s, 999));
    let late = session(SessionStatus::Waiting, u32::MAX, 5);
    assert!(!has_game_lost(&late, 0));
    assert!(!has_game_lost(&late, u32::MAX));
}

#[test]
fn timeout_does_not_look_at_the_status() {
    assert!(has_game_lost(&session(won(), 0, 5), 200));
    assert!(has_game_lost(&session(SessionStatus::MessageSent, 0, 5), 200));
}

#[test]
fn game_status_is_the_result_once_ended() {
    assert_eq!(
        get_game_status(&session(SessionStatus::Waiting, 0, 5)),
        GameStatus { game_result: None }
    );
    assert_eq!(
        get_game_status(&session(SessionStatus::MessageSent, 0, 5)),
        GameStatus { game_result: None }
    );
    assert_eq!(
        get_game_status(&session(
            SessionStatus::MessageReceived(Event::GameStarted { user: user() }),
            0,
            5
        )),
        GameStatus { game_result: None }
    );
    assert_eq!(
        get_game_status(&session(won(), 0, 5)),
        GameStatus { game_result: Some(GameResult::Win) }
    );
    assert_eq!(
        get_game_status(&session(lost(), 0, 5)),
        GameStatus { game_result: Some(GameResult::Lose) }
    );
}

#[test]
fn start_game_restarts_the_clock_and_goes_to_the_oracle() {
    let mut s = session(SessionStatus::Waiting, 10, 3);
    let effects = handle_waiting_state(&mut s, SessionAction::StartGame { user: user() }, 77);
    assert_eq!(
        effects,
        Effects {
            request: Some(Request {
                destination: oracle(),
                payload: Action::StartGame { user: user() },
            }),
            watchdog: None,
            reply: None,
        }
    );
    assert!(effects.suspends());
    assert_eq!(s, session(SessionStatus::MessageSent, 77, 3));
}

#[test]
fn accepted_guess_costs_one_attempt() {
    let mut s = session(SessionStatus::Waiting, 10, 3);
    let effects = handle_waiting_state(&mut s, guess("house"), 77);
    assert_eq!(
        effects,
        Effects {
            request: Some(Request {
                destination: oracle(),
                payload: Action::CheckWord { user: user(), word: "house".to_string() },
            }),
            watchdog: None,
            reply: None,
        }
    );
    assert_eq!(s, session(SessionStatus::MessageSent, 10, 2));
}

#[test]
fn last_attempt_can_still_be_used() {
    let mut s = session(SessionStatus::Waiting, 10, 1);
    let effects = on_action(&mut s, guess("house"), 77);
    assert!(effects.suspends());
    assert_eq!(s, session(SessionStatus::MessageSent, 10, 0));
}

#[test]
fn guess_without_attempts_loses_the_round() {
    let mut s = session(SessionStatus::Waiting, 10, 0);
    let effects = on_action(&mut s, guess("house"), 11);
    assert_eq!(effects, error("No more attempts left, game over"));
    assert!(!effects.suspends());
    assert_eq!(s, session(lost(), 10, 0));
}

#[test]
fn guess_after_the_end_is_refused() {
    let mut s = session(won(), 10, 2);
    let effects = handle_waiting_state(&mut s, guess("house"), 11);
    assert_eq!(effects, error("Game has already ended"));
    assert_eq!(s, session(won(), 10, 2));

    let mut s = session(lost(), 10, 0);
    let effects = handle_waiting_state(&mut s, guess("house"), 11);
    assert_eq!(effects, error("Game has already ended"));
    assert_eq!(s, session(lost(), 10, 0));
}

#[test]
fn status_check_before_the_timeout_reports_an_open_round() {
    let mut s = session(SessionStatus::Waiting, 10, 4);
    let effects = on_action(&mut s, SessionAction::CheckGameStatus { user: user() }, 209);
    assert_eq!(effects, status(None));
    assert_eq!(s, session(SessionStatus::Waiting, 10, 4));
}

#[test]
fn status_check_at_the_timeout_loses_the_round() {
    let mut s = session(SessionStatus::Waiting, 10, 4);
    let effects = on_action(&mut s, SessionAction::CheckGameStatus { user: user() }, 210);
    assert_eq!(effects, status(Some(GameResult::Lose)));
    assert_eq!(s, session(lost(), 10, 4));
}

#[test]
fn status_check_leaves_a_won_round_won() {
    let mut s = session(won(), 10, 4);
    let effects = handle_waiting_state(&mut s, SessionAction::CheckGameStatus { user: user() }, 5000);
    assert_eq!(effects, status(Some(GameResult::Win)));
    assert_eq!(s, session(won(), 10, 4));
}

#[test]
fn action_while_a_request_is_outstanding_is_refused() {
    for action in [
        SessionAction::StartGame { user: user() },
        guess("house"),
        SessionAction::CheckGameStatus { user: user() },
    ] {
        let mut s = session(SessionStatus::MessageSent, 10, 4);
        let effects = on_action(&mut s, action, 5000);
        assert_eq!(effects, error("Message has already been sent, restart the game"));
        assert_eq!(s, session(SessionStatus::MessageSent, 10, 4));
    }
}

#[test]
fn ended_session_ignores_every_action() {
    for action in [
        SessionAction::StartGame { user: user() },
        guess("house"),
        SessionAction::CheckGameStatus { user: user() },
    ] {
        let mut s = session(lost(), 10, 4);
        let effects = on_action(&mut s, action, 5000);
        assert_eq!(effects, Effects { request: None, watchdog: None, reply: None });
        assert_eq!(s, session(lost(), 10, 4));
    }
}

#[test]
fn answer_is_queued_from_every_open_status() {
    for open in [
        SessionStatus::Waiting,
        SessionStatus::MessageSent,
        SessionStatus::MessageReceived(Event::GameStarted { user: user() }),
    ] {
        let mut s = session(open, 10, 4);
        assert!(on_reply(&mut s, checked(vec![0], vec![1])));
        assert_eq!(s, session(SessionStatus::MessageReceived(checked(vec![0], vec![1])), 10, 4));
    }
}

#[test]
fn late_answer_is_ignored_after_the_end() {
    let mut s = session(lost(), 10, 4);
    assert!(!on_reply(&mut s, checked(vec![0, 1, 2, 3, 4], vec![])));
    assert_eq!(s, session(lost(), 10, 4));

    let effects = handle_message_received(&mut s, &checked(vec![0, 1, 2, 3, 4], vec![]));
    assert_eq!(effects, Effects { request: None, watchdog: None, reply: None });
    assert_eq!(s, session(lost(), 10, 4));

    let mut store = SessionStore::new();
    store.save_session(session(won(), 10, 4));
    assert!(!handle_reply(&mut store, Event::GameStarted { user: user() }));
    assert_eq!(state(&store), session(won(), 10, 4));
}

#[test]
fn confirmed_start_arms_the_watchdog() {
    let mut s = session(SessionStatus::MessageSent, 10, 5);
    let effects = handle_message_received(&mut s, &Event::GameStarted { user: user() });
    assert_eq!(
        effects,
        Effects {
            request: None,
            watchdog: Some(Delayed {
                action: SessionAction::CheckGameStatus { user: user() },
                delay: 200,
            }),
            reply: Some(SessionEvent::GameStarted { user: user() }),
        }
    );
    assert!(!effects.suspends());
    assert_eq!(s, session(SessionStatus::Waiting, 10, 5));
}

#[test]
fn five_correct_positions_win_whatever_the_attempts() {
    for attempts in [0u8, 1, 4, 5, 200] {
        let mut s = session(SessionStatus::MessageSent, 10, attempts);
        let effects = handle_message_received(&mut s, &checked(vec![0, 1, 2, 3, 4], vec![]));
        assert_eq!(effects, status(Some(GameResult::Win)));
        assert_eq!(s, session(won(), 10, attempts));
    }
}

#[test]
fn only_the_number_of_correct_positions_counts() {
    let mut s = session(SessionStatus::Waiting, 10, 2);
    let effects = handle_message_received(&mut s, &checked(vec![9, 9, 9, 9, 9], vec![1, 2]));
    assert_eq!(effects, status(Some(GameResult::Win)));
    assert_eq!(s, session(won(), 10, 2));
}

#[test]
fn other_numbers_of_correct_positions_are_passed_on() {
    for correct in [vec![], vec![0u8, 1, 2, 3], vec![0, 1, 2, 3, 4, 5]] {
        let mut s = session(SessionStatus::MessageSent, 10, 2);
        let effects = handle_message_received(&mut s, &checked(correct.clone(), vec![4]));
        assert_eq!(
            effects,
            Effects {
                request: None,
                watchdog: None,
                reply: Some(SessionEvent::WordChecked {
                    user: user(),
                    correct_positions: correct,
                    contained_in_word: vec![4],
                }),
            }
        );
        assert_eq!(s, session(SessionStatus::Waiting, 10, 2));
    }
}

#[test]
fn queued_answer_is_consumed_whatever_the_action() {
    for action in [
        SessionAction::StartGame { user: user() },
        guess("house"),
        SessionAction::CheckGameStatus { user: user() },
    ] {
        let mut s = session(SessionStatus::MessageReceived(checked(vec![2], vec![])), 10, 2);
        let effects = on_action(&mut s, action, 5000);
        assert_eq!(
            effects,
            Effects {
                request: None,
                watchdog: None,
                reply: Some(SessionEvent::WordChecked {
                    user: user(),
                    correct_positions: vec![2],
                    contained_in_word: vec![],
                }),
            }
        );
        assert_eq!(s, session(SessionStatus::Waiting, 10, 2));
    }
}

#[test]
fn winning_answer_wins_through_the_entry_points() {
    let mut store = SessionStore::new();
    store.save_session(session(SessionStatus::MessageSent, 10, 0));
    assert!(handle_reply(&mut store, checked(vec![0, 1, 2, 3, 4], vec![])));
    assert_eq!(
        state(&store).session_status,
        SessionStatus::MessageReceived(checked(vec![0, 1, 2, 3, 4], vec![]))
    );
    let effects = handle(&mut store, guess("house"), 11);
    assert_eq!(effects, status(Some(GameResult::Win)));
    assert_eq!(state(&store), session(won(), 10, 0));
}

#[test]
fn attempts_fall_only_with_accepted_guesses() {
    let mut store = SessionStore::new();
    init(&mut store, oracle(), 0);
    let mut seen = vec![state(&store).attempts];
    handle(&mut store, SessionAction::StartGame { user: user() }, 1);
    seen.push(state(&store).attempts);
    handle(&mut store, guess("early"), 1);
    seen.push(state(&store).attempts);
    handle_reply(&mut store, Event::GameStarted { user: user() });
    seen.push(state(&store).attempts);
    handle(&mut store, SessionAction::StartGame { user: user() }, 2);
    seen.push(state(&store).attempts);
    handle(&mut store, SessionAction::CheckGameStatus { user: user() }, 3);
    seen.push(state(&store).attempts);
    handle(&mut store, guess("house"), 4);
    seen.push(state(&store).attempts);
    handle(&mut store, guess("again"), 4);
    seen.push(state(&store).attempts);
    handle_reply(&mut store, checked(vec![1], vec![]));
    seen.push(state(&store).attempts);
    handle(&mut store, guess("house"), 5);
    seen.push(state(&store).attempts);
    handle(&mut store, guess("horse"), 6);
    seen.push(state(&store).attempts);
    assert_eq!(seen, vec![5, 5, 5, 5, 5, 5, 4, 4, 4, 4, 3]);
}

#[test]
fn effects_suspend_exactly_with_a_request() {
    assert!(!Effects::none().suspends());
    assert!(!Effects::reply(SessionEvent::GameStarted { user: user() }).suspends());
    let forwarded = Effects::forward(oracle(), Action::StartGame { user: user() });
    assert!(forwarded.suspends());
    assert_eq!(forwarded.request.map(|request| request.destination), Some(oracle()));
}

#[test]
fn clones_are_equal() {
    let action = guess("house");
    assert_eq!(action.clone(), action);
    let request = Action::CheckWord { user: user(), word: "house".to_string() };
    assert_eq!(request.clone(), request);
    let event = checked(vec![0, 3], vec![1]);
    assert_eq!(event.clone(), event);
    let answer = SessionEvent::GameError("No more attempts left, game over".to_string());
    assert_eq!(answer.clone(), answer);
    let answer = SessionEvent::GameStatus(GameStatus { game_result: Some(GameResult::Win) });
    assert_eq!(answer.clone(), answer);
    let s = session(SessionStatus::MessageReceived(event), 3, 2);
    assert_eq!(s.clone(), s);
    assert_eq!(GameResult::Lose.clone(), GameResult::Lose);
}
