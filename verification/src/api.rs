//! The thin client's handle on a homeserver, and the event type names the
//! handlers match on. The HTTP calls made with the handle live outside the
//! library.

use vstd::prelude::*;

verus! {

/// A homeserver handle: where to call and, once logged in, with what token.
#[derive(Clone)]
pub struct Api {
    pub homeserver: String,
    pub access_token: Option<String>,
}

/// The event type names the sync handlers match on.
pub struct EventType {
    pub room_encrypted: String,
    pub room_key: String,
    pub room_message: String,
    pub room_key_request: String,
}

impl Default for EventType {
    /// The standard names of the four event types.
    fn default() -> (d: Self)
        ensures
            d.room_encrypted@ == "m.room.encrypted"@,
            d.room_key@ == "m.room.key"@,
            d.room_message@ == "m.room.message"@,
            d.room_key_request@ == "m.room.key_request"@,
    {
        EventType {
            room_key: String::from_str("m.room.key"),
            room_key_request: String::from_str("m.room.key_request"),
            room_message: String::from_str("m.room.message"),
            room_encrypted: String::from_str("m.room.encrypted"),
        }
    }
}

} // verus!
