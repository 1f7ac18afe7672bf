//! Plain records of the Matrix client-server API, as the thin client the
//! bridge can run against models them. They carry data only; the HTTP
//! transport that fills and sends them lives outside the library. Fields the
//! handlers never read stay as opaque JSON values and are carried through.

pub mod discovery;
pub mod join;
pub mod keys;
pub mod login;
pub mod room_events;
pub mod sync;

use vstd::prelude::*;

verus! {

/// Declares `serde_json::Value` so that records can carry untyped JSON
/// through; values of it are opaque here.
#[verifier::external_type_specification]
#[verifier::external_body]
pub struct ExValue(serde_json::Value);

/// Declares `serde_json::Map` so that records can carry untyped JSON objects
/// through; values of it are opaque here.
#[verifier::external_type_specification]
#[verifier::external_body]
#[verifier::reject_recursive_types(K)]
#[verifier::reject_recursive_types(V)]
pub struct ExMap<K, V>(serde_json::Map<K, V>);

} // verus!
