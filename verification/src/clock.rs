//! The system clock.

use vstd::prelude::*;

verus! {

/// The time of the system clock, in seconds since the Unix epoch.
///
/// Calls `chrono::Utc::now` and takes the `timestamp` of what it returns.
/// Nothing is claimed of the value: the clock may be set to any time, and
/// may be set back between two calls. `Utc::now` does not return where the
/// clock reads a time before the epoch.
#[verifier::external_body]
pub(crate) fn unix_now() -> (seconds: i64) {
    chrono::Utc::now().timestamp()
}

} // verus!
