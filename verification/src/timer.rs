//! A lightweight scope timer used when profiling the handlers.

use vstd::prelude::*;

verus! {

/// Declares `std::time::Instant` so that a timer can hold one; values of it
/// are opaque here.
#[verifier::external_type_specification]
#[verifier::external_body]
pub struct ExInstant(std::time::Instant);

/// Relies on `std::time::Instant::now`: a reading of the monotonic clock.
/// Nothing is assumed of the value.
pub assume_specification[ std::time::Instant::now ]() -> std::time::Instant;

/// A timer that remembers when it was created and which site created it.
pub struct FunctionTimer<'a> {
    pub start: std::time::Instant,
    pub msg: &'a str,
}

impl<'a> FunctionTimer<'a> {
    /// Start a timer labelled `msg`.
    pub fn new(msg: &'a str) -> (t: Self)
        ensures
            t.msg@ == msg@,
    {
        FunctionTimer { msg, start: std::time::Instant::now() }
    }
}

} // verus!
