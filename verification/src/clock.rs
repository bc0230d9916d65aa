//! Points in time.

use vstd::prelude::*;

verus! {

/// Nanoseconds in a second.
pub const NANOS_PER_SEC: i128 = 1_000_000_000;

/// Seconds in a day.
pub const SECS_PER_DAY: i64 = 86_400;

/// A point in time: whole seconds since 1970-01-01 00:00 UTC, which do not count
/// leap seconds, and nanoseconds after that second. A leap second belongs to the
/// second before it: within one the nanoseconds run past one second.
#[derive(Debug, Clone, Copy, PartialEq, Eq, Structural)]
pub struct Instant {
    pub secs: i64,
    pub nanos: u32,
}

/// Whether a point in time lies within a leap second.
pub open spec fn in_leap_second(instant: Instant) -> bool {
    instant.nanos >= 1_000_000_000
}

/// The second of the day that a point in time lies in.
pub open spec fn time_of_day(instant: Instant) -> int {
    instant.secs as int % 86_400
}

impl Instant {
    /// Whether this point in time is `other` or comes before it.
    pub open spec fn spec_not_after(self, other: Instant) -> bool {
        self.secs < other.secs || (self.secs == other.secs && self.nanos <= other.nanos)
    }

    /// Whether this point in time is `other` or comes before it.
    pub fn not_after(&self, other: &Instant) -> (b: bool)
        ensures
            b == self.spec_not_after(*other),
    {
        self.secs < other.secs || (self.secs == other.secs && self.nanos <= other.nanos)
    }

    /// Nanoseconds from `earlier` to this point in time. A leap second at the one
    /// that is earlier in the day counts.
    pub open spec fn spec_elapsed_since(self, earlier: Instant) -> int {
        let span = (self.secs - earlier.secs) * 1_000_000_000 + self.nanos - earlier.nanos;
        if time_of_day(earlier) < time_of_day(self) && in_leap_second(earlier) {
            span + 1_000_000_000
        } else if time_of_day(self) < time_of_day(earlier) && in_leap_second(self) {
            span - 1_000_000_000
        } else {
            span
        }
    }

    /// Nanoseconds from `earlier` to this point in time.
    pub fn elapsed_since(&self, earlier: &Instant) -> (nanos: i128)
        ensures
            nanos == self.spec_elapsed_since(*earlier),
    {
        let span: i128 = (self.secs as i128 - earlier.secs as i128) * NANOS_PER_SEC
            + self.nanos as i128 - earlier.nanos as i128;
        let here: i64 = self.secs.checked_rem_euclid(SECS_PER_DAY).unwrap();
        let there: i64 = earlier.secs.checked_rem_euclid(SECS_PER_DAY).unwrap();
        if there < here && earlier.nanos >= 1_000_000_000 {
            span + NANOS_PER_SEC
        } else if here < there && self.nanos >= 1_000_000_000 {
            span - NANOS_PER_SEC
        } else {
            span
        }
    }

    /// The point in time `secs` seconds earlier, or the first second that there is. A
    /// leap second that this leaves counts as elapsed.
    pub open spec fn spec_earlier_by(self, secs: i64) -> Instant {
        let earlier = if in_leap_second(self) {
            self.secs + 1 - secs
        } else {
            self.secs - secs
        };
        Instant {
            secs: if earlier >= i64::MIN {
                earlier as i64
            } else {
                i64::MIN
            },
            nanos: if in_leap_second(self) {
                (self.nanos - 1_000_000_000) as u32
            } else {
                self.nanos
            },
        }
    }

    /// The point in time `secs` seconds earlier, or the first second that there is.
    pub fn earlier_by(&self, secs: i64) -> (instant: Instant)
        requires
            secs > 0,
        ensures
            instant == self.spec_earlier_by(secs),
    {
        let leap: bool = self.nanos >= 1_000_000_000;
        let earlier: i64 = if self.secs < i64::MIN + secs {
            i64::MIN
        } else if leap {
            self.secs - secs + 1
        } else {
            self.secs - secs
        };
        let nanos: u32 = if leap {
            self.nanos - 1_000_000_000
        } else {
            self.nanos
        };
        Instant { secs: earlier, nanos }
    }

    /// The point in time `secs` seconds later, or the last second that there is. A
    /// leap second that this leaves is over within those seconds.
    pub open spec fn spec_later_by(self, secs: i64) -> Instant {
        Instant {
            secs: if self.secs + secs <= i64::MAX {
                (self.secs + secs) as i64
            } else {
                i64::MAX
            },
            nanos: if in_leap_second(self) {
                (self.nanos - 1_000_000_000) as u32
            } else {
                self.nanos
            },
        }
    }

    /// The point in time `secs` seconds later, or the last second that there is.
    pub fn later_by(&self, secs: i64) -> (instant: Instant)
        requires
            secs > 0,
        ensures
            instant == self.spec_later_by(secs),
    {
        let later: i64 = if self.secs <= i64::MAX - secs {
            self.secs + secs
        } else {
            i64::MAX
        };
        let nanos: u32 = if self.nanos >= 1_000_000_000 {
            self.nanos - 1_000_000_000
        } else {
            self.nanos
        };
        Instant { secs: later, nanos }
    }
}

} // verus!
