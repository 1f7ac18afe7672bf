//! Records of the sync long-poll call. Sections the handlers never read are
//! carried through as untyped JSON.

use std::collections::HashMap;

use vstd::prelude::*;

verus! {

/// The parameters of one sync request.
pub struct SyncRequest {
    pub filter: Option<String>,
    pub since: Option<String>,
    pub full_state: bool,
    pub set_presence: String,
    pub timeout: u64,
}

/// The presence a sync request advertises.
#[derive(Default)]
pub enum Presence {
    Offline,
    #[default]
    Online,
    Unavailable,
}

/// What one sync long-poll returns.
pub struct SyncResponse {
    pub account_data: Option<serde_json::Map<String, serde_json::Value>>,
    pub device_lists: Option<serde_json::Map<String, serde_json::Value>>,
    pub device_one_time_keys_count: Option<serde_json::Map<String, serde_json::Value>>,
    pub next_batch: String,
    pub presence: Option<serde_json::Map<String, serde_json::Value>>,
    pub rooms: Option<Rooms>,
    pub to_device: Option<serde_json::Map<String, serde_json::Value>>,
}

/// The account data events of one sync.
pub struct AccountData {
    pub events: Option<Vec<serde_json::Map<String, serde_json::Value>>>,
}

/// The ephemeral events of one room.
pub struct Ephemeral {
    pub events: Option<Vec<serde_json::Map<String, serde_json::Value>>>,
}

/// The state events of one room.
pub struct State {
    pub events: Option<Vec<ClientEventWithoutRoomId>>,
}

/// One room event as a sync reports it, without its room id.
pub struct ClientEventWithoutRoomId {
    pub content: serde_json::Map<String, serde_json::Value>,
    pub event_id: Option<String>,
    pub origin_server_ts: u64,
    pub sender: String,
    pub state_key: Option<String>,
    pub kind: String,
    pub unsigned: Option<Box<UnsignedData>>,
}

/// The unsigned section of a reported event.
pub struct UnsignedData {
    pub age: Option<u64>,
    pub prev_content: Option<serde_json::Map<String, serde_json::Value>>,
    pub redacted_because: Option<ClientEventWithoutRoomId>,
    pub transaction_id: Option<String>,
}

/// The member summary a joined room reports.
pub struct RoomSummary {
    pub heroes: Option<Vec<String>>,
    pub invited_member_count: Option<u64>,
    pub joined_member_count: Option<u64>,
}

/// Unread notification counts of a joined room.
pub struct UnreadNotificationCounts {
    pub highlight_count: u64,
    pub notification_count: u64,
}

/// Unread notification counts of a thread.
pub struct ThreadNotificationCounts {
    pub highlight_count: u64,
    pub notification_count: u64,
}

/// Which devices changed or left between two syncs.
pub struct DeviceLists {
    pub changed: Option<Vec<String>>,
    pub left: Option<Vec<String>>,
}

/// The rooms section of one sync, by membership.
pub struct Rooms {
    pub invite: Option<HashMap<String, InvitedRoom>>,
    pub join: Option<HashMap<String, JoinedRoom>>,
    pub knock: Option<HashMap<String, KnockedRoom>>,
    pub leave: Option<HashMap<String, LeftRoom>>,
}

/// A room the user is invited to.
pub struct InvitedRoom {
    pub invited_state: Option<RoomState>,
}

/// A room the user has knocked on.
pub struct KnockedRoom {
    pub knock_state: Option<RoomState>,
}

/// The stripped state of an invited or knocked room.
pub struct RoomState {
    pub events: Vec<StrippedState>,
}

/// One stripped state event.
pub struct StrippedState {
    pub sender: String,
    pub kind: String,
    pub state_key: String,
    pub content: serde_json::Map<String, serde_json::Value>,
}

/// A joined room's sections in one sync.
pub struct JoinedRoom {
    pub account_data: Option<AccountData>,
    pub ephemeral: Option<Ephemeral>,
    pub state: Option<State>,
    pub summary: Option<RoomSummary>,
    pub timeline: Option<Timeline>,
    pub unread_notifications: Option<UnreadNotificationCounts>,
    pub unread_thread_notifications: Option<ThreadNotificationCounts>,
}

/// A left room's sections in one sync.
pub struct LeftRoom {
    pub account_data: Option<AccountData>,
    pub state: Option<State>,
    pub timeline: Option<Timeline>,
}

/// The timeline slice one sync reports for a room.
pub struct Timeline {
    pub events: Vec<ClientEventWithoutRoomId>,
    pub limited: Option<bool>,
    pub prev_batch: Option<String>,
}

} // verus!
