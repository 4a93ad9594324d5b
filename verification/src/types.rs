//! Message shapes exchanged with users and with the oracle, the session
//! record, and their mathematical views.
//!
//! A view replaces every `Vec` by a `Seq`, every `String` by its sequence of
//! characters and every machine integer by a natural number.  Contracts in
//! this crate speak of views only, so they hold whatever copy of a value is
//! at hand.

use gstd::ActorId;
use vstd::prelude::*;

verus! {

/// `gstd::ActorId`, the 256-bit identifier of a user or a program.  The
/// library never looks inside such a value: it carries it from one message
/// into another.
#[verifier::external_type_specification]
#[verifier::external_body]
pub struct ExActorId(gstd::ActorId);

/// How a finished round ended.
#[derive(Debug, PartialEq)]
pub enum GameResult {
    Win,
    Lose,
}

impl Clone for GameResult {
    fn clone(&self) -> (r: Self)
        ensures
            r == *self,
    {
        match self {
            GameResult::Win => GameResult::Win,
            GameResult::Lose => GameResult::Lose,
        }
    }
}

/// The result of the round as far as it is known: `None` while the round is
/// still open.
#[derive(Debug, PartialEq)]
pub struct GameStatus {
    pub game_result: Option<GameResult>,
}

impl Clone for GameStatus {
    fn clone(&self) -> (r: Self)
        ensures
            r == *self,
    {
        match &self.game_result {
            Some(result) => GameStatus { game_result: Some(result.clone()) },
            None => GameStatus { game_result: None },
        }
    }
}

/// A request that the session forwards to the oracle.
#[derive(Debug, PartialEq)]
pub enum Action {
    StartGame { user: ActorId },
    CheckWord { user: ActorId, word: String },
}

/// Mathematical value of an [`Action`].
pub enum ActionView {
    StartGame { user: ActorId },
    CheckWord { user: ActorId, word: Seq<char> },
}

impl View for Action {
    type V = ActionView;

    open spec fn view(&self) -> ActionView {
        match *self {
            Action::StartGame { user } => ActionView::StartGame { user },
            Action::CheckWord { user, word } => ActionView::CheckWord { user, word: word@ },
        }
    }
}

impl Clone for Action {
    fn clone(&self) -> (r: Self)
        ensures
            r@ == self@,
    {
        match self {
            Action::StartGame { user } => Action::StartGame { user: *user },
            Action::CheckWord { user, word } => Action::CheckWord { user: *user, word: word.clone() },
        }
    }
}

/// An answer of the oracle.  The two feedback arrays are the oracle's
/// business; the session only counts the first.
#[derive(Debug, PartialEq)]
pub enum Event {
    GameStarted { user: ActorId },
    WordChecked { user: ActorId, correct_positions: Vec<u8>, contained_in_word: Vec<u8> },
}

/// Mathematical value of an [`Event`].
pub enum EventView {
    GameStarted { user: ActorId },
    WordChecked { user: ActorId, correct_positions: Seq<u8>, contained_in_word: Seq<u8> },
}

impl View for Event {
    type V = EventView;

    open spec fn view(&self) -> EventView {
        match *self {
            Event::GameStarted { user } => EventView::GameStarted { user },
            Event::WordChecked { user, correct_positions, contained_in_word } => EventView::WordChecked {
                user,
                correct_positions: correct_positions@,
                contained_in_word: contained_in_word@,
            },
        }
    }
}

impl Clone for Event {
    fn clone(&self) -> (r: Self)
        ensures
            r@ == self@,
    {
        match self {
            Event::GameStarted { user } => Event::GameStarted { user: *user },
            Event::WordChecked { user, correct_positions, contained_in_word } => Event::WordChecked {
                user: *user,
                correct_positions: correct_positions.clone(),
                contained_in_word: contained_in_word.clone(),
            },
        }
    }
}

/// What a user, or the watchdog, asks of the session.
#[derive(Debug, PartialEq)]
pub enum SessionAction {
    StartGame { user: ActorId },
    CheckWord { user: ActorId, word: String },
    CheckGameStatus { user: ActorId },
}

/// Mathematical value of a [`SessionAction`].
pub enum SessionActionView {
    StartGame { user: ActorId },
    CheckWord { user: ActorId, word: Seq<char> },
    CheckGameStatus { user: ActorId },
}

impl View for SessionAction {
    type V = SessionActionView;

    open spec fn view(&self) -> SessionActionView {
        match *self {
            SessionAction::StartGame { user } => SessionActionView::StartGame { user },
            SessionAction::CheckWord { user, word } => SessionActionView::CheckWord { user, word: word@ },
            SessionAction::CheckGameStatus { user } => SessionActionView::CheckGameStatus { user },
        }
    }
}

impl Clone for SessionAction {
    fn clone(&self) -> (r: Self)
        ensures
            r@ == self@,
    {
        match self {
            SessionAction::StartGame { user } => SessionAction::StartGame { user: *user },
            SessionAction::CheckWord { user, word } => SessionAction::CheckWord {
                user: *user,
                word: word.clone(),
            },
            SessionAction::CheckGameStatus { user } => SessionAction::CheckGameStatus { user: *user },
        }
    }
}

/// What the session answers to the sender of a [`SessionAction`].
#[derive(Debug, PartialEq)]
pub enum SessionEvent {
    GameStarted { user: ActorId },
    WordChecked { user: ActorId, correct_positions: Vec<u8>, contained_in_word: Vec<u8> },
    GameStatus(GameStatus),
    GameError(String),
}

/// Mathematical value of a [`SessionEvent`].
pub enum SessionEventView {
    GameStarted { user: ActorId },
    WordChecked { user: ActorId, correct_positions: Seq<u8>, contained_in_word: Seq<u8> },
    GameStatus(GameStatus),
    GameError(Seq<char>),
}

impl View for SessionEvent {
    type V = SessionEventView;

    open spec fn view(&self) -> SessionEventView {
        match *self {
            SessionEvent::GameStarted { user } => SessionEventView::GameStarted { user },
            SessionEvent::WordChecked { user, correct_positions, contained_in_word } => {
                SessionEventView::WordChecked {
                    user,
                    correct_positions: correct_positions@,
                    contained_in_word: contained_in_word@,
                }
            },
            SessionEvent::GameStatus(status) => SessionEventView::GameStatus(status),
            SessionEvent::GameError(reason) => SessionEventView::GameError(reason@),
        }
    }
}

impl Clone for SessionEvent {
    fn clone(&self) -> (r: Self)
        ensures
            r@ == self@,
    {
        match self {
            SessionEvent::GameStarted { user } => SessionEvent::GameStarted { user: *user },
            SessionEvent::WordChecked { user, correct_positions, contained_in_word } => {
                SessionEvent::WordChecked {
                    user: *user,
                    correct_positions: correct_positions.clone(),
                    contained_in_word: contained_in_word.clone(),
                }
            },
            SessionEvent::GameStatus(status) => SessionEvent::GameStatus(status.clone()),
            SessionEvent::GameError(reason) => SessionEvent::GameError(reason.clone()),
        }
    }
}

/// Where a session stands in its life.
#[derive(Debug, PartialEq)]
pub enum SessionStatus {
    /// No request is outstanding.
    Waiting,
    /// A request went to the oracle and its sender is suspended.
    MessageSent,
    /// The oracle's answer is queued for the suspended sender.
    MessageReceived(Event),
    /// The round is over; nothing changes any more.
    GameEnded { result: GameResult },
}

/// Mathematical value of a [`SessionStatus`].
pub enum SessionStatusView {
    Waiting,
    MessageSent,
    MessageReceived(EventView),
    GameEnded { result: GameResult },
}

impl View for SessionStatus {
    type V = SessionStatusView;

    open spec fn view(&self) -> SessionStatusView {
        match *self {
            SessionStatus::Waiting => SessionStatusView::Waiting,
            SessionStatus::MessageSent => SessionStatusView::MessageSent,
            SessionStatus::MessageReceived(event) => SessionStatusView::MessageReceived(event@),
            SessionStatus::GameEnded { result } => SessionStatusView::GameEnded { result },
        }
    }
}

impl Clone for SessionStatus {
    fn clone(&self) -> (r: Self)
        ensures
            r@ == self@,
    {
        match self {
            SessionStatus::Waiting => SessionStatus::Waiting,
            SessionStatus::MessageSent => SessionStatus::MessageSent,
            SessionStatus::MessageReceived(event) => SessionStatus::MessageReceived(event.clone()),
            SessionStatus::GameEnded { result } => SessionStatus::GameEnded { result: result.clone() },
        }
    }
}

/// The one record that a program instance keeps between calls.
#[derive(Debug, PartialEq)]
pub struct Session {
    /// The oracle that requests are forwarded to.
    pub target_program_id: ActorId,
    pub session_status: SessionStatus,
    /// Block height at which the current round began.
    pub start_block_height: u32,
    /// Guesses that may still be forwarded.
    pub attempts: u8,
}

/// Mathematical value of a [`Session`].
pub struct SessionView {
    pub target_program_id: ActorId,
    pub session_status: SessionStatusView,
    pub start_block_height: nat,
    pub attempts: nat,
}

impl View for Session {
    type V = SessionView;

    open spec fn view(&self) -> SessionView {
        SessionView {
            target_program_id: self.target_program_id,
            session_status: self.session_status@,
            start_block_height: self.start_block_height as nat,
            attempts: self.attempts as nat,
        }
    }
}

impl Clone for Session {
    fn clone(&self) -> (r: Self)
        ensures
            r@ == self@,
    {
        Session {
            target_program_id: self.target_program_id,
            session_status: self.session_status.clone(),
            start_block_height: self.start_block_height,
            attempts: self.attempts,
        }
    }
}

} // verus!
