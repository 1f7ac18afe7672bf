//! Records of the room join call.

use vstd::prelude::*;

verus! {

/// A room join request with a third-party invite proof.
pub struct JoinRequest {
    pub reason: String,
    pub third_party: ThirdPartySigned,
}

/// The signed third-party invite a join presents; the signature object is
/// carried through untyped.
pub struct ThirdPartySigned {
    pub mxid: String,
    pub sender: String,
    pub signatures: serde_json::Map<String, serde_json::Value>,
    pub token: String,
}

/// What a successful room join returns.
pub struct JoinResponse {
    pub room_id: String,
}

} // verus!
