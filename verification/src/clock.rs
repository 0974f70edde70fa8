//! Readings of the two clocks the agent goes by.

use vstd::prelude::*;
use crate::limits::NANOS_PER_SEC;

verus! {

/// One reading of both clocks, taken at the same moment.
#[derive(Debug, Clone, Copy, PartialEq, Eq, Structural)]
pub struct Clock {
    /// Nanoseconds on a clock that never runs backwards; only differences of
    /// two readings mean anything.
    pub monotonic: u64,
    /// Nanoseconds since the Unix epoch on the wall clock.
    pub unix: u64,
}

/// The nanoseconds from `earlier` to `later`; none where `later` is not
/// later.
pub open spec fn elapsed(earlier: u64, later: u64) -> u64 {
    if later >= earlier {
        (later - earlier) as u64
    } else {
        0
    }
}

/// Whole seconds in `nanos` nanoseconds.
pub open spec fn whole_seconds(nanos: u64) -> i64 {
    (nanos / NANOS_PER_SEC) as i64
}

/// The nanoseconds from `earlier` to `later` on one clock.
pub fn duration_between(earlier: u64, later: u64) -> (nanos: u64)
    ensures
        nanos == elapsed(earlier, later),
{
    if later >= earlier {
        later - earlier
    } else {
        0
    }
}

/// Whole seconds in `nanos` nanoseconds.
pub fn seconds(nanos: u64) -> (secs: i64)
    ensures
        secs == whole_seconds(nanos),
        0 <= secs,
{
    (nanos / NANOS_PER_SEC) as i64
}

} // verus!
