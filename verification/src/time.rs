//! Instants and spans of time.

use vstd::prelude::*;

verus! {

/// Nanoseconds in one second.
pub const NANOS_PER_SEC: u128 = 1_000_000_000;

/// A span of time, or an instant on the caller's monotonic clock, in nanoseconds.
///
/// Sums saturate at the top of the range and differences at zero.
#[derive(Clone, Copy, Debug, PartialEq, Eq, Structural, PartialOrd, Ord, Hash)]
pub struct Duration {
    /// The nanoseconds.
    pub nanos: u128,
}

/// The nanoseconds from `since` to `now`, and zero if `since` lies in the future.
pub open spec fn elapsed(now: Duration, since: Duration) -> int {
    if now.nanos >= since.nanos {
        now.nanos - since.nanos
    } else {
        0
    }
}

/// The instant `span` nanoseconds after `start`, or the last instant there is.
pub open spec fn after(start: Duration, span: int) -> Duration {
    Duration {
        nanos: if start.nanos + span <= u128::MAX {
            (start.nanos + span) as u128
        } else {
            u128::MAX
        },
    }
}

/// The earlier of two instants.
pub open spec fn earlier(a: Duration, b: Duration) -> Duration {
    if b.nanos < a.nanos {
        b
    } else {
        a
    }
}

impl Duration {
    /// No time at all.
    pub fn zero() -> (r: Duration)
        ensures
            r.nanos == 0,
    {
        Duration { nanos: 0 }
    }

    /// A whole number of seconds.
    pub fn from_secs(secs: u64) -> (r: Duration)
        ensures
            r.nanos == secs * NANOS_PER_SEC,
    {
        Duration { nanos: (secs as u128) * NANOS_PER_SEC }
    }

    /// A whole number of nanoseconds.
    pub fn from_nanos(nanos: u128) -> (r: Duration)
        ensures
            r.nanos == nanos,
    {
        Duration { nanos }
    }

    /// The time from `since` to `self`, and zero if `since` is later.
    pub fn saturating_sub(self, since: Duration) -> (r: Duration)
        ensures
            r.nanos == elapsed(self, since),
    {
        if self.nanos >= since.nanos {
            Duration { nanos: self.nanos - since.nanos }
        } else {
            Duration { nanos: 0 }
        }
    }

    /// The instant `span` after `self`, or the last instant there is.
    pub fn saturating_add(self, span: Duration) -> (r: Duration)
        ensures
            r == after(self, span.nanos as int),
    {
        if span.nanos <= u128::MAX - self.nanos {
            Duration { nanos: self.nanos + span.nanos }
        } else {
            Duration { nanos: u128::MAX }
        }
    }

    /// The earlier of two instants.
    pub fn min(self, other: Duration) -> (r: Duration)
        ensures
            r == earlier(self, other),
    {
        if other.nanos < self.nanos {
            other
        } else {
            self
        }
    }
}

} // verus!
