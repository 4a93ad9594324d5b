//! What a transition asks its caller to do: forward a request to the oracle,
//! schedule the watchdog, answer the sender.

use crate::types::{
    Action, ActionView, SessionAction, SessionActionView, SessionEvent, SessionEventView,
};
use gstd::ActorId;
use vstd::prelude::*;

verus! {

/// A request on its way to the oracle.
#[derive(Debug, PartialEq)]
pub struct Request {
    pub destination: ActorId,
    pub payload: Action,
}

/// Mathematical value of a [`Request`].
pub struct RequestView {
    pub destination: ActorId,
    pub payload: ActionView,
}

impl View for Request {
    type V = RequestView;

    open spec fn view(&self) -> RequestView {
        RequestView { destination: self.destination, payload: self.payload@ }
    }
}

/// An action that the program sends to itself, to arrive `delay` blocks
/// later.
#[derive(Debug, PartialEq)]
pub struct Delayed {
    pub action: SessionAction,
    pub delay: u32,
}

/// Mathematical value of a [`Delayed`].
pub struct DelayedView {
    pub action: SessionActionView,
    pub delay: nat,
}

impl View for Delayed {
    type V = DelayedView;

    open spec fn view(&self) -> DelayedView {
        DelayedView { action: self.action@, delay: self.delay as nat }
    }
}

/// Everything that leaves the program at the end of one call.
///
/// Whoever sends the `request` then suspends the current call: it is resumed,
/// as the same call, once the oracle's answer has been queued.
#[derive(Debug, PartialEq)]
pub struct Effects {
    /// To be sent to the oracle.
    pub request: Option<Request>,
    /// To be sent to the program itself, delayed.
    pub watchdog: Option<Delayed>,
    /// To be sent back to the sender of the action.
    pub reply: Option<SessionEvent>,
}

/// Mathematical value of [`Effects`].
pub struct EffectsView {
    pub request: Option<RequestView>,
    pub watchdog: Option<DelayedView>,
    pub reply: Option<SessionEventView>,
}

impl EffectsView {
    /// Nothing leaves the program.
    pub open spec fn none() -> EffectsView {
        EffectsView { request: None, watchdog: None, reply: None }
    }

    /// Only an answer to the sender leaves the program.
    pub open spec fn reply(event: SessionEventView) -> EffectsView {
        EffectsView { request: None, watchdog: None, reply: Some(event) }
    }

    /// Only a request to the oracle leaves the program.
    pub open spec fn forward(destination: ActorId, payload: ActionView) -> EffectsView {
        EffectsView {
            request: Some(RequestView { destination, payload }),
            watchdog: None,
            reply: None,
        }
    }

    /// The current call is suspended exactly when a request goes out.
    pub open spec fn suspends(self) -> bool {
        self.request is Some
    }
}

impl View for Effects {
    type V = EffectsView;

    open spec fn view(&self) -> EffectsView {
        EffectsView {
            request: match self.request {
                Some(request) => Some(request@),
                None => None,
            },
            watchdog: match self.watchdog {
                Some(delayed) => Some(delayed@),
                None => None,
            },
            reply: match self.reply {
                Some(event) => Some(event@),
                None => None,
            },
        }
    }
}

impl Effects {
    /// Nothing leaves the program.
    pub fn none() -> (effects: Effects)
        ensures
            effects@ == EffectsView::none(),
    {
        Effects { request: None, watchdog: None, reply: None }
    }

    /// Only `event` leaves the program, as the answer to the sender.
    pub fn reply(event: SessionEvent) -> (effects: Effects)
        ensures
            effects@ == EffectsView::reply(event@),
    {
        Effects { request: None, watchdog: None, reply: Some(event) }
    }

    /// Only `payload` leaves the program, towards `destination`.
    pub fn forward(destination: ActorId, payload: Action) -> (effects: Effects)
        ensures
            effects@ == EffectsView::forward(destination, payload@),
    {
        Effects { request: Some(Request { destination, payload }), watchdog: None, reply: None }
    }

    /// Whether the current call must be suspended once the effects are
    /// carried out.
    pub fn suspends(&self) -> (r: bool)
        ensures
            r == self@.suspends(),
    {
        self.request.is_some()
    }
}

} // verus!
