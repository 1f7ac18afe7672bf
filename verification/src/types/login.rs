//! Records of the password login call.

use vstd::prelude::*;

verus! {

/// A password login request.
pub struct LoginRequest {
    pub device_id: Option<String>,
    pub identifier: Identifier,
    pub initial_device_display_name: Option<String>,
    pub password: String,
    pub kind: String,
}

/// The user identifier a login names.
pub struct Identifier {
    pub kind: String,
    pub user: String,
}

/// What a successful login returns.
pub struct LoginResponse {
    pub user_id: String,
    pub access_token: String,
    pub home_server: String,
    pub device_id: String,
}

} // verus!
