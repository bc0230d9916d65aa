//! What holds of points in time, counted in nanoseconds.

use vstd::prelude::*;

use crate::clock::Instant;

verus! {

/// Nanoseconds since 1970, each leap second laid over the second behind it.
pub open spec fn nanos_since_epoch(instant: Instant) -> int {
    instant.secs * 1_000_000_000 + instant.nanos
}

/// Outside of leap seconds a point in time comes before another exactly when fewer
/// nanoseconds have passed until then.
pub proof fn law_order_counts_nanoseconds(a: Instant, b: Instant)
    requires
        a.nanos < 1_000_000_000,
        b.nanos < 1_000_000_000,
    ensures
        a.spec_not_after(b) <==> nanos_since_epoch(a) <= nanos_since_epoch(b),
{
}

/// The order is total, leap seconds or not: of two points in time one is not after
/// the other, both ways only for one and the same, and it carries over.
pub proof fn law_order_is_total(a: Instant, b: Instant, c: Instant)
    ensures
        a.spec_not_after(b) || b.spec_not_after(a),
        a.spec_not_after(b) && b.spec_not_after(a) <==> a == b,
        a.spec_not_after(b) && b.spec_not_after(c) ==> a.spec_not_after(c),
{
}

/// A leap second lies between the second that it follows and the next one.
pub proof fn law_leap_second_lies_between(leap: Instant, before: Instant, behind: Instant)
    requires
        leap.nanos >= 1_000_000_000,
        before.secs <= leap.secs,
        before.nanos < 1_000_000_000,
        behind.secs > leap.secs,
    ensures
        before.spec_not_after(leap) && !leap.spec_not_after(before),
        leap.spec_not_after(behind) && !behind.spec_not_after(leap),
{
}

/// The time from one point to another is the difference of their nanoseconds. A leap
/// second counts as one more at the point that is earlier in the day; the time back is
/// that forth with the other sign.
pub proof fn law_elapsed_is_the_difference(a: Instant, b: Instant)
    ensures
        a.nanos < 1_000_000_000 && b.nanos < 1_000_000_000 ==> b.spec_elapsed_since(a)
            == nanos_since_epoch(b) - nanos_since_epoch(a),
        a.nanos >= 1_000_000_000 && a.secs as int % 86_400 < b.secs as int % 86_400
            ==> b.spec_elapsed_since(a) == nanos_since_epoch(b) - nanos_since_epoch(a)
            + 1_000_000_000,
        a.nanos >= 1_000_000_000 && b.nanos < 1_000_000_000 && a.secs as int % 86_400
            >= b.secs as int % 86_400 ==> b.spec_elapsed_since(a) == nanos_since_epoch(b)
            - nanos_since_epoch(a),
        a.secs as int % 86_400 == b.secs as int % 86_400 ==> b.spec_elapsed_since(a)
            == nanos_since_epoch(b) - nanos_since_epoch(a),
        b.spec_elapsed_since(a) == -a.spec_elapsed_since(b),
{
}

/// Going back takes that many seconds off, and lands outside of a leap second. There is
/// nothing before the first second.
pub proof fn law_earlier_takes_seconds_off(a: Instant, secs: i64)
    requires
        secs > 0,
        a.nanos < 2_000_000_000,
    ensures
        a.secs - secs >= i64::MIN ==> nanos_since_epoch(a.spec_earlier_by(secs))
            == nanos_since_epoch(a) - secs * 1_000_000_000,
        a.spec_earlier_by(secs).nanos < 1_000_000_000,
        a.spec_earlier_by(secs).nanos as int == a.nanos as int % 1_000_000_000,
        a.secs - secs < i64::MIN ==> a.spec_earlier_by(secs).secs == i64::MIN,
        a.spec_earlier_by(secs).spec_not_after(a),
{
}

/// Going forth puts that many seconds on, a leap second among them where it starts in
/// one. There is nothing behind the last second.
pub proof fn law_later_puts_seconds_on(a: Instant, secs: i64)
    requires
        secs > 0,
        a.nanos < 2_000_000_000,
    ensures
        a.secs + secs <= i64::MAX && a.nanos < 1_000_000_000 ==> nanos_since_epoch(
            a.spec_later_by(secs),
        ) == nanos_since_epoch(a) + secs * 1_000_000_000,
        a.secs + secs <= i64::MAX && a.nanos >= 1_000_000_000 ==> nanos_since_epoch(
            a.spec_later_by(secs),
        ) == nanos_since_epoch(a) + (secs - 1) * 1_000_000_000,
        a.spec_later_by(secs).nanos < 1_000_000_000,
        a.secs + secs > i64::MAX ==> a.spec_later_by(secs).secs == i64::MAX,
        a.secs < i64::MAX ==> a.spec_not_after(a.spec_later_by(secs)),
{
}

} // verus!
