//! Points in time and what has passed between them.
use vstd::prelude::*;

use crate::replay::{Span, NANOS_PER_SEC};

verus! {

/// A point in time: seconds since the epoch and the nanoseconds beyond them.
#[derive(Clone, Copy, Debug, PartialEq, Eq, Structural)]
pub struct Timestamp {
    pub sec: i64,
    pub nsec: i32,
}

impl Timestamp {
    /// The nanoseconds stay below a full second.
    pub open spec fn valid(self) -> bool {
        0 <= self.nsec < NANOS_PER_SEC
    }

    /// The point in nanoseconds since the epoch.
    pub open spec fn total_nanos(self) -> int {
        self.sec * NANOS_PER_SEC + self.nsec
    }
}

/// The nanoseconds from `start` to `now`; negative where the clock ran
/// backwards.
pub open spec fn elapsed_nanos(start: Timestamp, now: Timestamp) -> int {
    now.total_nanos() - start.total_nanos()
}

/// Whether at `now` at least `duration` has passed since `start`.
pub open spec fn has_elapsed(start: Timestamp, now: Timestamp, duration: Span) -> bool {
    elapsed_nanos(start, now) >= duration.total_nanos()
}

/// Reads the wall clock with `time::get_time`. Of the reading only this is
/// claimed: its nanoseconds are at least 0 and below a full second, which is
/// what that function asserts of every `Timespec` it builds.
#[verifier::external_body]
pub(crate) fn wall_clock() -> (now: Timestamp)
    ensures
        now.valid(),
{
    let t = time::get_time();
    Timestamp { sec: t.sec, nsec: t.nsec }
}

/// Whether at `now` at least `duration` has passed since `start`.
pub fn time_has_elapsed_at(start: Timestamp, now: Timestamp, duration: Span) -> (elapsed: bool)
    ensures
        elapsed == has_elapsed(start, now, duration),
{
    let billion: i128 = 1_000_000_000;
    let from: i128 = start.sec as i128 * billion + start.nsec as i128;
    let to: i128 = now.sec as i128 * billion + now.nsec as i128;
    let limit: i128 = duration.secs as i128 * billion + duration.nanos as i128;
    to - from >= limit
}

/// Whether by now at least `duration` has passed since `start`. It reads the
/// clock once and answers for that reading.
pub fn time_has_elapsed(start: Timestamp, duration: Span) -> (elapsed: bool)
    ensures
        exists|now: Timestamp| now.valid() && elapsed == #[trigger] has_elapsed(start, now, duration),
{
    let now = wall_clock();
    time_has_elapsed_at(start, now, duration)
}

} // verus!
