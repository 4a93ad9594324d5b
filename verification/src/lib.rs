//! Session orchestrator for a word-guessing game whose rules live in a
//! separate oracle program.
//!
//! The library holds the per-session state machine: it decides, from the
//! stored session and an incoming action or oracle answer, what the next
//! session is and which messages leave the program.  Sending, receiving,
//! suspending and waking are left to the caller.

pub mod effects;
pub mod entry;
pub mod machine;
pub mod model;
pub mod store;
pub mod theorems;
pub mod types;
