//! Points in time.

use vstd::prelude::*;

verus! {

/// A point in time: the whole seconds since the Unix epoch, rounded down, and the nanoseconds
/// that follow them.
#[derive(Debug, Clone, Copy, PartialEq, Eq, Structural)]
pub struct Timestamp {
    pub secs: i64,
    pub nanos: u32,
}

/// The nanoseconds of a second.
pub const NANOS_PER_SEC: u32 = 1_000_000_000;

impl Timestamp {
    /// Whether the point lies within its second.
    pub open spec fn valid(self) -> bool {
        self.nanos < NANOS_PER_SEC
    }

    /// The nanoseconds since the Unix epoch.
    pub open spec fn since_epoch(self) -> int {
        self.secs * NANOS_PER_SEC + self.nanos
    }

    /// Whether `self` comes after `other`: by the seconds, then by the nanoseconds.
    pub open spec fn later(self, other: Timestamp) -> bool {
        self.secs > other.secs || (self.secs == other.secs && self.nanos > other.nanos)
    }

    /// Whether `self` comes after `other`.
    pub fn is_after(&self, other: &Timestamp) -> (r: bool)
        ensures
            r == self.later(*other),
            r == (self.secs > other.secs || (self.secs == other.secs && self.nanos > other.nanos)),
    {
        self.secs > other.secs || (self.secs == other.secs && self.nanos > other.nanos)
    }
}

/// Valid points in time come one after another as their nanoseconds since the epoch do.
pub proof fn law_later_is_more_nanoseconds(a: Timestamp, b: Timestamp)
    requires
        a.valid(),
        b.valid(),
    ensures
        a.later(b) <==> a.since_epoch() > b.since_epoch(),
{
}

/// The point in time with more seconds is later, and of two with the same seconds the one with
/// more nanoseconds.
pub proof fn law_later_by_seconds_first(a: Timestamp, b: Timestamp)
    ensures
        a.secs > b.secs ==> a.later(b) && !b.later(a),
        a.secs == b.secs ==> (a.later(b) <==> a.nanos > b.nanos),
        !(a.later(b) && b.later(a)),
        !a.later(b) && !b.later(a) ==> a == b,
{
}

/// A second has a thousand million nanoseconds.
pub proof fn law_nanoseconds_since_the_epoch(t: Timestamp)
    ensures
        t.since_epoch() == t.secs * 1_000_000_000 + t.nanos,
        t.valid() <==> t.nanos < 1_000_000_000,
{
}

} // verus!
