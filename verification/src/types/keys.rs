//! Records of the device key upload call. Key material is carried through
//! untyped; nothing here interprets it.

use vstd::prelude::*;

verus! {

/// A device key upload.
pub struct KeysUploadRequest {
    pub device_keys: DeviceKeys,
    pub fallback_keys: Option<String>,
    pub one_time_keys: Option<serde_json::Value>,
}

/// The identity keys one device publishes.
pub struct DeviceKeys {
    pub user_id: String,
    pub device_id: String,
    pub algorithms: Vec<String>,
    pub keys: serde_json::Value,
    pub signatures: Option<serde_json::Value>,
}

/// What a key upload returns.
pub struct KeysUploadResponse {
    pub one_time_key_counts: serde_json::Value,
}

} // verus!
