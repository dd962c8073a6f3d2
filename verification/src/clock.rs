//! Wall-clock reads.  The engine itself takes timestamps as arguments;
//! these wrappers supply them at the entry points that mirror a live
//! service.  Nothing is promised about the values: callers treat them as
//! arbitrary, and every contract downstream holds for whatever they return.

use vstd::prelude::*;

verus! {

/// Relies on `std::time::SystemTime::now`, read via `duration_since` the
/// Unix epoch as whole milliseconds; a failing system-time read yields 0,
/// so the call never panics.
#[verifier::external_body]
pub fn now_ms() -> u64 {
    match std::time::SystemTime::now().duration_since(std::time::UNIX_EPOCH) {
        Ok(d) => d.as_millis() as u64,
        Err(_) => 0,
    }
}

/// Relies on `std::time::SystemTime::now`, read via `duration_since` the
/// Unix epoch as whole seconds; a failing system-time read yields 0, so
/// the call never panics.
#[verifier::external_body]
pub fn now_secs() -> u64 {
    match std::time::SystemTime::now().duration_since(std::time::UNIX_EPOCH) {
        Ok(d) => d.as_secs(),
        Err(_) => 0,
    }
}

} // verus!
