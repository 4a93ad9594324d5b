//! The transitions of a session, executable, each proved equal to its model.
//!
//! Nothing here sends or receives: a transition changes the session in place
//! and returns the [`Effects`] that its caller is to carry out.  The block
//! height is an argument.

use crate::effects::{Delayed, Effects};
use crate::model::{
    act, consume, dispatch, initial, queue, INITIAL_ATTEMPTS, TIMEOUT_BLOCKS, WORD_LENGTH,
};
use crate::types::{
    Action, Event, GameResult, GameStatus, Session, SessionAction, SessionEvent, SessionStatus,
};
use gstd::ActorId;
use vstd::prelude::*;

verus! {

impl Session {
    /// A fresh session: waiting, with all attempts, its clock started at
    /// `current_block_height`.
    pub fn new(target_program_id: ActorId, current_block_height: u32) -> (session: Session)
        ensures
            session@ == initial(target_program_id, current_block_height as nat),
            session@.well_formed(),
    {
        Session {
            target_program_id,
            session_status: SessionStatus::Waiting,
            start_block_height: current_block_height,
            attempts: INITIAL_ATTEMPTS,
        }
    }

    /// Whether the round is over.
    pub fn has_ended(&self) -> (r: bool)
        ensures
            r == self@.ended(),
    {
        matches!(self.session_status, SessionStatus::GameEnded { .. })
    }
}

/// The result of the round, `None` while it is open.
pub fn get_game_status(session: &Session) -> (status: GameStatus)
    ensures
        status == session@.game_status(),
{
    match &session.session_status {
        SessionStatus::GameEnded { result } => GameStatus { game_result: Some(result.clone()) },
        _ => GameStatus { game_result: None },
    }
}

/// Whether, at `current_block_height`, the round has lasted long enough to
/// be lost by timeout.  A height before the start of the round counts as no
/// time gone by.
pub fn has_game_lost(session: &Session, current_block_height: u32) -> (lost: bool)
    ensures
        lost == session@.timed_out(current_block_height as nat),
        lost == (current_block_height - session.start_block_height >= TIMEOUT_BLOCKS),
{
    let block_difference: u32 = current_block_height.saturating_sub(session.start_block_height);
    block_difference >= TIMEOUT_BLOCKS
}

/// Applies `action` to a session that has no request outstanding.
///
/// `StartGame` restarts the clock and forwards the request.  `CheckWord` is
/// refused once the round is over, loses the round when no attempt is left,
/// else costs one attempt and is forwarded.  `CheckGameStatus` ends an open
/// round that has timed out and answers with the result.
pub fn handle_waiting_state(
    session: &mut Session,
    action: SessionAction,
    current_block_height: u32,
) -> (effects: Effects)
    ensures
        final(session)@ == act(old(session)@, action@, current_block_height as nat).session,
        effects@ == act(old(session)@, action@, current_block_height as nat).effects,
{
    match action {
        SessionAction::StartGame { user } => {
            session.start_block_height = current_block_height;
            session.session_status = SessionStatus::MessageSent;
            Effects::forward(session.target_program_id, Action::StartGame { user })
        },
        SessionAction::CheckWord { user, word } => {
            if session.has_ended() {
                return Effects::reply(SessionEvent::GameError("Game has already ended".to_owned()));
            }
            if session.attempts == 0 {
                session.session_status = SessionStatus::GameEnded { result: GameResult::Lose };
                return Effects::reply(
                    SessionEvent::GameError("No more attempts left, game over".to_owned()),
                );
            }
            session.attempts -= 1;
            session.session_status = SessionStatus::MessageSent;
            Effects::forward(session.target_program_id, Action::CheckWord { user, word })
        },
        SessionAction::CheckGameStatus { user: _ } => {
            if !session.has_ended() && has_game_lost(session, current_block_height) {
                session.session_status = SessionStatus::GameEnded { result: GameResult::Lose };
            }
            Effects::reply(SessionEvent::GameStatus(get_game_status(session)))
        },
    }
}

/// Consumes the oracle's answer `event` in the resumed call.
///
/// An ended session ignores it.  Otherwise `GameStarted` arms the watchdog
/// and is passed on; `WordChecked` wins the round when every position is
/// correct and is passed on when not; a session that has not ended waits
/// again.
pub fn handle_message_received(session: &mut Session, event: &Event) -> (effects: Effects)
    ensures
        final(session)@ == consume(old(session)@, event@).session,
        effects@ == consume(old(session)@, event@).effects,
{
    if session.has_ended() {
        return Effects::none();
    }
    match event {
        Event::GameStarted { user } => {
            session.session_status = SessionStatus::Waiting;
            Effects {
                request: None,
                watchdog: Some(
                    Delayed {
                        action: SessionAction::CheckGameStatus { user: *user },
                        delay: TIMEOUT_BLOCKS,
                    },
                ),
                reply: Some(SessionEvent::GameStarted { user: *user }),
            }
        },
        Event::WordChecked { user, correct_positions, contained_in_word } => {
            if correct_positions.len() == WORD_LENGTH {
                session.session_status = SessionStatus::GameEnded { result: GameResult::Win };
                Effects::reply(
                    SessionEvent::GameStatus(GameStatus { game_result: Some(GameResult::Win) }),
                )
            } else {
                session.session_status = SessionStatus::Waiting;
                Effects::reply(
                    SessionEvent::WordChecked {
                        user: *user,
                        correct_positions: correct_positions.clone(),
                        contained_in_word: contained_in_word.clone(),
                    },
                )
            }
        },
    }
}

/// Applies one call of the action entry point to `session`, by its status.
///
/// A waiting session takes the action.  While a request is outstanding the
/// action is refused.  With an answer queued the call is the resumed one: the
/// answer is consumed and `action` is not looked at.  An ended session does
/// nothing.
///
/// The effects are to be carried out once the session is stored; when they
/// hold a request, the call is then suspended and run again, with the same
/// action, after the oracle's answer was queued.
pub fn on_action(
    session: &mut Session,
    action: SessionAction,
    current_block_height: u32,
) -> (effects: Effects)
    ensures
        final(session)@ == dispatch(old(session)@, action@, current_block_height as nat).session,
        effects@ == dispatch(old(session)@, action@, current_block_height as nat).effects,
        old(session)@.ended() ==> final(session)@ == old(session)@,
        final(session)@.attempts <= old(session)@.attempts,
{
    match &session.session_status {
        SessionStatus::Waiting => handle_waiting_state(session, action, current_block_height),
        SessionStatus::MessageSent => Effects::reply(
            SessionEvent::GameError("Message has already been sent, restart the game".to_owned()),
        ),
        SessionStatus::MessageReceived(event) => {
            let event = event.clone();
            handle_message_received(session, &event)
        },
        SessionStatus::GameEnded { .. } => Effects::none(),
    }
}

/// Applies one call of the reply entry point to `session`: queues `event` for
/// the suspended call, unless the round is over.  Returns whether the event
/// was queued, which is when the suspended call is to be woken.
pub fn on_reply(session: &mut Session, event: Event) -> (queued: bool)
    ensures
        final(session)@ == queue(old(session)@, event@),
        queued == !old(session)@.ended(),
        old(session)@.ended() ==> final(session)@ == old(session)@,
        final(session)@.attempts == old(session)@.attempts,
{
    if session.has_ended() {
        return false;
    }
    session.session_status = SessionStatus::MessageReceived(event);
    true
}

} // verus!
