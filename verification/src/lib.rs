//! Core of a message bridge between a Matrix room and a Telegram chat.
//!
//! The library holds the platform-independent logic of the bridge: the
//! registry of bridged conversation pairs, the capped correspondence store
//! that ties a Matrix event id to the Telegram message it was relayed as
//! (and back), the binary encoding of that store, the retry policy around
//! a destination send call, and the two directional relay pipelines.
//! Network transport, file handling and the platform client libraries live
//! outside; they hand the library plain values and carry out the send and
//! fetch actions it decides on.

pub mod api;
pub mod bridge_structs;
pub mod bridge_utils;
pub mod codec;
pub mod db;
pub mod feed_db;
pub mod matrix_handlers;
pub mod tg_handlers;
pub mod timer;
pub mod types;

use vstd::prelude::*;

verus! {

/// Upper bound on the number of correspondence records kept per conversation.
pub const BRIDGED_MESSAGES_CAP: usize = 1000;

} // verus!
