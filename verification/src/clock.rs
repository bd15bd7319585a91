//! The wall clock, behind a trusted boundary.

use vstd::prelude::*;

verus! {

/// Relies on `std::time::SystemTime::now` followed by
/// `SystemTime::duration_since(UNIX_EPOCH)`: the wall clock's seconds since
/// the Unix epoch, or `None` when the clock reads earlier than the epoch.
/// Nothing can be promised of a wall-clock reading, so this has no `ensures`.
#[verifier::external_body]
pub(crate) fn unix_now() -> Option<u64> {
    match std::time::SystemTime::now().duration_since(std::time::UNIX_EPOCH) {
        Ok(elapsed) => Some(elapsed.as_secs()),
        Err(_) => None,
    }
}

} // verus!
