//! Request handling core of a small administrative backend.
//!
//! Every endpoint answers with the same envelope: a numeric code, a message
//! and a payload. A handler is a pure step function: told what happened (a
//! request arrived, the service layer answered), it says what to do next
//! (call the service layer, send a reply). Whoever drives a handler performs
//! the calls; nothing in this crate waits, reads or writes.

pub mod envelope;
pub mod state;
pub mod controller;
pub mod router;
