//! The entry points of a program instance: initialisation, an incoming
//! action, an incoming answer of the oracle, and a read of the state.  Each
//! reads the whole session from the store, applies one transition and writes
//! the whole session back.

use crate::effects::Effects;
use crate::machine::{on_action, on_reply};
use crate::model::{dispatch, initial, queue};
use crate::store::SessionStore;
use crate::types::{Event, Session, SessionAction};
use gstd::ActorId;
use vstd::prelude::*;

verus! {

/// Stores a fresh session that delegates to `target_program_id`, in place of
/// whatever was stored.
pub fn init(store: &mut SessionStore, target_program_id: ActorId, current_block_height: u32)
    ensures
        final(store)@ == Some(initial(target_program_id, current_block_height as nat)),
{
    store.save_session(Session::new(target_program_id, current_block_height));
}

/// Handles one incoming action at height `current_block_height`, or one
/// resumption of a suspended call.
///
/// The effects are to be carried out after the call; when they hold a
/// request, the call is then suspended, and run again with the same action
/// once [`handle_reply`] has queued the answer.
pub fn handle(
    store: &mut SessionStore,
    action: SessionAction,
    current_block_height: u32,
) -> (effects: Effects)
    requires
        old(store)@ is Some,
    ensures
        final(store)@ == Some(
            dispatch(old(store)@->0, action@, current_block_height as nat).session,
        ),
        effects@ == dispatch(old(store)@->0, action@, current_block_height as nat).effects,
        old(store)@->0.ended() ==> final(store)@ == old(store)@,
{
    let mut session = store.load_session();
    let effects = on_action(&mut session, action, current_block_height);
    store.save_session(session);
    effects
}

/// Handles one incoming answer of the oracle: queues it for the suspended
/// call, unless the round is over.  Returns whether that call is to be woken.
pub fn handle_reply(store: &mut SessionStore, event: Event) -> (wake: bool)
    requires
        old(store)@ is Some,
    ensures
        final(store)@ == Some(queue(old(store)@->0, event@)),
        wake == !old(store)@->0.ended(),
        old(store)@->0.ended() ==> final(store)@ == old(store)@,
{
    let mut session = store.load_session();
    let wake = on_reply(&mut session, event);
    store.save_session(session);
    wake
}

/// The stored session, for inspection.
pub fn state(store: &SessionStore) -> (session: Session)
    requires
        store@ is Some,
    ensures
        Some(session@) == store@,
{
    store.load_session()
}

} // verus!
