//! The wall clock.

use vstd::prelude::*;
use std::time::{SystemTime, UNIX_EPOCH};

verus! {

/// Reads `std::time::SystemTime::now()` and returns the whole seconds since
/// the Unix epoch, or 0 when the clock reads before the epoch. Nothing is
/// promised of the value: it depends on the machine's clock, which may even
/// go backwards between two reads.
#[verifier::external_body]
pub(crate) fn now_epoch() -> (secs: u64) {
    SystemTime::now().duration_since(UNIX_EPOCH).unwrap_or_default().as_secs()
}

} // verus!
