//! The clock by which ticks and redraws are paced.

use vstd::prelude::*;

verus! {

/// Nanoseconds in a second.
pub const NANOS_PER_SECOND: u64 = 1_000_000_000;

/// Nanoseconds in a millisecond.
pub const NANOS_PER_MILLI: u64 = 1_000_000;

/// Calls `time::precise_time_ns`: the reading, in nanoseconds since some
/// moment that is not specified, of a high-resolution counter.  Nothing is
/// claimed of the number.
#[verifier::external_body]
pub(crate) fn precise_time_ns() -> (now: u64) {
    time::precise_time_ns()
}

/// The nanoseconds that have passed from the reading `start` to the later
/// reading `now`; zero if `now` is not later.
pub open spec fn spec_elapsed(start: u64, now: u64) -> u64 {
    if now >= start {
        (now - start) as u64
    } else {
        0
    }
}

#[verifier::when_used_as_spec(spec_elapsed)]
pub fn elapsed(start: u64, now: u64) -> (passed: u64)
    ensures
        passed == spec_elapsed(start, now),
{
    if now >= start {
        now - start
    } else {
        0
    }
}

} // verus!
