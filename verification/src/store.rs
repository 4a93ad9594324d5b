//! The place where the one session of a program instance is kept between
//! calls.  It is empty until a session is saved; the whole record is read and
//! the whole record is written.

use crate::types::{Session, SessionView};
use vstd::prelude::*;

verus! {

/// Holder of the session.
pub struct SessionStore {
    session: Option<Session>,
}

impl View for SessionStore {
    type V = Option<SessionView>;

    closed spec fn view(&self) -> Option<SessionView> {
        match self.session {
            Some(session) => Some(session@),
            None => None,
        }
    }
}

impl SessionStore {
    /// A store in which nothing was saved yet.
    pub fn new() -> (store: SessionStore)
        ensures
            store@ is None,
    {
        SessionStore { session: None }
    }

    /// Whether a session was saved.
    pub fn is_initialized(&self) -> (r: bool)
        ensures
            r == (self@ is Some),
    {
        self.session.is_some()
    }

    /// Replaces whatever is stored by `session`.
    pub fn save_session(&mut self, session: Session)
        ensures
            final(self)@ == Some(session@),
    {
        self.session = Some(session);
    }

    /// A copy of the stored session.  Nothing can be read before a session
    /// was saved.
    pub fn load_session(&self) -> (session: Session)
        requires
            self@ is Some,
        ensures
            Some(session@) == self@,
    {
        self.session.as_ref().unwrap().clone()
    }
}

} // verus!
