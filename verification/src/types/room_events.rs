//! Records of room event sending and of the to-device key requests.

use std::collections::HashMap;

use vstd::prelude::*;

verus! {

/// The encryption settings a room state event declares.
pub struct RoomEncryption {
    pub algorithm: String,
    pub rotation_period_ms: Option<u64>,
    pub rotation_period_msgs: Option<u64>,
}

/// A plain message body to send.
pub struct SendRequest {
    pub body: String,
    pub msgtype: String,
}

/// A plain message body to send as a room event.
pub struct SendEventRequest {
    pub body: String,
    pub msgtype: String,
}

/// To-device events, keyed by user id and then device id.
pub struct SendToDeviceRequest {
    pub messages: HashMap<String, HashMap<String, ToDeviceEvent>>,
}

/// One to-device event with its type name.
pub struct ToDeviceEvent {
    pub content: RoomKeyRequest,
    pub kind: String,
}

/// A room key request sent to other devices.
pub struct RoomKeyRequest {
    pub action: String,
    pub body: Option<RequestKeyInfo>,
    pub request_id: String,
    pub requesting_device_id: String,
}

/// Which session a key request asks for.
pub struct RequestKeyInfo {
    pub algorithm: String,
    pub room_id: String,
    pub sender_key: Option<String>,
    pub session_id: String,
}

/// What fetching one event returns.
pub struct EventResponse {
    pub event_id: String,
}

/// What a successful event send returns.
pub struct SendResponse {
    pub event_id: String,
}

/// A decrypted room key.
pub struct RoomKey {
    pub algorithm: String,
    pub room_id: String,
    pub session_id: String,
    pub session_key: String,
}

} // verus!
