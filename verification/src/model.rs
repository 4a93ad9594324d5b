//! The session state machine as mathematics: one function per kind of input,
//! from the session before to the session after and the effects.
//!
//! Time is the block height, handed in by the caller.  A guess costs one
//! attempt when it is forwarded; a round that is neither won nor out of
//! attempts is lost once `TIMEOUT_BLOCKS` blocks have gone by since it began.

use crate::effects::{DelayedView, EffectsView};
use crate::types::{
    ActionView, EventView, GameResult, GameStatus, SessionActionView, SessionEventView,
    SessionStatusView, SessionView,
};
use gstd::ActorId;
use vstd::prelude::*;

verus! {

/// Guesses that a fresh session may forward.
pub const INITIAL_ATTEMPTS: u8 = 5;

/// Number of blocks after which an open round is lost, and delay of the
/// watchdog.
pub const TIMEOUT_BLOCKS: u32 = 200;

/// Number of correct positions that wins the round.
pub const WORD_LENGTH: usize = 5;

/// Reason given while a request is outstanding.
pub open spec fn reason_message_sent() -> Seq<char> {
    "Message has already been sent, restart the game"@
}

/// Reason given to a guess after the round is over.
pub open spec fn reason_game_ended() -> Seq<char> {
    "Game has already ended"@
}

/// Reason given to a guess when no attempt is left.
pub open spec fn reason_no_attempts() -> Seq<char> {
    "No more attempts left, game over"@
}

/// A session after a transition, and what the transition sends out.
pub struct Step {
    pub session: SessionView,
    pub effects: EffectsView,
}

impl SessionView {
    /// The round is over.
    pub open spec fn ended(self) -> bool {
        self.session_status is GameEnded
    }

    /// The result of the round, `None` while it is open.
    pub open spec fn game_status(self) -> GameStatus {
        match self.session_status {
            SessionStatusView::GameEnded { result } => GameStatus { game_result: Some(result) },
            _ => GameStatus { game_result: None },
        }
    }

    /// At height `now` the round has lasted `TIMEOUT_BLOCKS` blocks or more.
    /// A height before the start counts as no time gone by.
    pub open spec fn timed_out(self, now: nat) -> bool {
        now - self.start_block_height >= TIMEOUT_BLOCKS
    }

    /// No more attempts are left than a fresh session has.
    pub open spec fn well_formed(self) -> bool {
        self.attempts <= INITIAL_ATTEMPTS
    }

    /// The same session in another status.
    pub open spec fn with_status(self, status: SessionStatusView) -> SessionView {
        SessionView { session_status: status, ..self }
    }

    /// The same session, lost.
    pub open spec fn lost(self) -> SessionView {
        self.with_status(SessionStatusView::GameEnded { result: GameResult::Lose })
    }

    /// The same session, won.
    pub open spec fn won(self) -> SessionView {
        self.with_status(SessionStatusView::GameEnded { result: GameResult::Win })
    }
}

/// The session that initialisation stores: waiting, with all attempts, its
/// clock started at `now`.
pub open spec fn initial(target_program_id: ActorId, now: nat) -> SessionView {
    SessionView {
        target_program_id,
        session_status: SessionStatusView::Waiting,
        start_block_height: now,
        attempts: INITIAL_ATTEMPTS as nat,
    }
}

/// `StartGame`: the clock restarts at `now`, the request goes to the oracle
/// and the sender is suspended.
pub open spec fn start_game(s: SessionView, user: ActorId, now: nat) -> Step {
    Step {
        session: SessionView {
            start_block_height: now,
            session_status: SessionStatusView::MessageSent,
            ..s
        },
        effects: EffectsView::forward(s.target_program_id, ActionView::StartGame { user }),
    }
}

/// `CheckWord`: refused once the round is over; loses the round when no
/// attempt is left; else costs one attempt and goes to the oracle.  An ended
/// round is refused before its result is looked at, so a guess is never
/// answered with the result of the round.
pub open spec fn check_word(s: SessionView, user: ActorId, word: Seq<char>) -> Step {
    if s.ended() {
        Step {
            session: s,
            effects: EffectsView::reply(SessionEventView::GameError(reason_game_ended())),
        }
    } else if s.attempts == 0 {
        Step {
            session: s.lost(),
            effects: EffectsView::reply(SessionEventView::GameError(reason_no_attempts())),
        }
    } else {
        Step {
            session: SessionView {
                attempts: (s.attempts - 1) as nat,
                session_status: SessionStatusView::MessageSent,
                ..s
            },
            effects: EffectsView::forward(s.target_program_id, ActionView::CheckWord { user, word }),
        }
    }
}

/// `CheckGameStatus`: an open round that has timed out is lost; the answer is
/// the result as it then stands.
pub open spec fn check_game_status(s: SessionView, now: nat) -> Step {
    let session = if !s.ended() && s.timed_out(now) {
        s.lost()
    } else {
        s
    };
    Step {
        session,
        effects: EffectsView::reply(SessionEventView::GameStatus(session.game_status())),
    }
}

/// What an action does to a session that has no request outstanding.
pub open spec fn act(s: SessionView, action: SessionActionView, now: nat) -> Step {
    match action {
        SessionActionView::StartGame { user } => start_game(s, user, now),
        SessionActionView::CheckWord { user, word } => check_word(s, user, word),
        SessionActionView::CheckGameStatus { user } => check_game_status(s, now),
    }
}

/// What an answer of the oracle does once the suspended call is resumed.
///
/// An ended session ignores it.  Otherwise `GameStarted` arms the watchdog
/// and is passed on to the sender; `WordChecked` wins the round when
/// `WORD_LENGTH` positions are correct and is passed on to the sender when
/// not.  A session that has not ended then waits for the next action.
pub open spec fn consume(s: SessionView, event: EventView) -> Step {
    if s.ended() {
        Step { session: s, effects: EffectsView::none() }
    } else {
        match event {
            EventView::GameStarted { user } => Step {
                session: s.with_status(SessionStatusView::Waiting),
                effects: EffectsView {
                    request: None,
                    watchdog: Some(
                        DelayedView {
                            action: SessionActionView::CheckGameStatus { user },
                            delay: TIMEOUT_BLOCKS as nat,
                        },
                    ),
                    reply: Some(SessionEventView::GameStarted { user }),
                },
            },
            EventView::WordChecked { user, correct_positions, contained_in_word } => {
                if correct_positions.len() == WORD_LENGTH {
                    Step {
                        session: s.won(),
                        effects: EffectsView::reply(
                            SessionEventView::GameStatus(
                                GameStatus { game_result: Some(GameResult::Win) },
                            ),
                        ),
                    }
                } else {
                    Step {
                        session: s.with_status(SessionStatusView::Waiting),
                        effects: EffectsView::reply(
                            SessionEventView::WordChecked { user, correct_positions, contained_in_word },
                        ),
                    }
                }
            },
        }
    }
}

/// One call of the action entry point, by the status of the session.
///
/// While a request is outstanding every action is refused.  With an answer
/// queued the call is the resumed one: the answer is consumed and the action
/// that came with the call is not looked at.  An ended session does nothing.
pub open spec fn dispatch(s: SessionView, action: SessionActionView, now: nat) -> Step {
    match s.session_status {
        SessionStatusView::Waiting => act(s, action, now),
        SessionStatusView::MessageSent => Step {
            session: s,
            effects: EffectsView::reply(SessionEventView::GameError(reason_message_sent())),
        },
        SessionStatusView::MessageReceived(event) => consume(s, event),
        SessionStatusView::GameEnded { .. } => Step { session: s, effects: EffectsView::none() },
    }
}

/// One call of the reply entry point: the answer is queued, unless the round
/// is over.
pub open spec fn queue(s: SessionView, event: EventView) -> SessionView {
    if s.ended() {
        s
    } else {
        s.with_status(SessionStatusView::MessageReceived(event))
    }
}

/// One call of an entry point, as seen by the session.
pub enum Input {
    /// An action, or the resumption of a suspended call, at height `now`.
    Action { action: SessionActionView, now: nat },
    /// An answer of the oracle.
    Reply { event: EventView },
}

/// The session after one call.
pub open spec fn apply(s: SessionView, input: Input) -> SessionView {
    match input {
        Input::Action { action, now } => dispatch(s, action, now).session,
        Input::Reply { event } => queue(s, event),
    }
}

/// The session after the calls `inputs`, in order.
pub open spec fn run(s: SessionView, inputs: Seq<Input>) -> SessionView
    decreases inputs.len(),
{
    if inputs.len() == 0 {
        s
    } else {
        apply(run(s, inputs.drop_last()), inputs.last())
    }
}

} // verus!
