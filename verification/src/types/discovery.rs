//! Records of the server discovery (well-known) lookup.

use vstd::prelude::*;

verus! {

/// What a homeserver's well-known document names.
pub struct DiscoveryInfo {
    pub m_homeserver: HomeserverInfo,
    pub m_identity_server: Option<IdentityServerInfo>,
}

/// The API versions a homeserver reports; the unstable feature map is
/// carried through untyped.
pub struct Versions {
    pub versions: Vec<String>,
    pub unstable_features: serde_json::Value,
}

/// The advertised homeserver endpoint.
pub struct HomeserverInfo {
    pub base_url: String,
}

/// The advertised identity-server endpoint.
pub struct IdentityServerInfo {
    pub base_url: String,
}

} // verus!
