//! The wall clock, read as whole seconds since the Unix epoch.

use vstd::prelude::*;

verus! {

/// Relies on `std::time::SystemTime::now` and `duration_since`: the present
/// time in whole seconds since the Unix epoch, or 0 when the clock sits
/// before the epoch.  Nothing is promised of the value: callers hold for
/// every reading.
#[verifier::external_body]
pub fn unix_now() -> u64 {
    match std::time::SystemTime::now().duration_since(std::time::UNIX_EPOCH) {
        Ok(d) => d.as_secs(),
        Err(_) => 0,
    }
}

} // verus!
