//! Points in time as seconds and nanoseconds since the Unix epoch, with the
//! comparisons and differences that the listings need.
use vstd::prelude::*;

verus! {

/// A point in time: `secs` seconds and `nanos` nanoseconds after the Unix
/// epoch (UTC).
#[derive(Debug, Clone, Copy, PartialEq, Eq)]
pub struct Timestamp {
    pub secs: i64,
    pub nanos: u32,
}

impl Timestamp {
    /// Nanoseconds since the epoch.
    pub open spec fn total_nanos(self) -> int {
        self.secs * 1_000_000_000 + self.nanos
    }

    /// A timestamp lies in the range of calendar dates that the API's
    /// date-times can hold (about 262,000 years either side of the epoch,
    /// inside 10^13 seconds). Its nanoseconds are free: during a leap second
    /// they run from 10^9 up, on the second before it.
    pub open spec fn wf(self) -> bool {
        -10_000_000_000_000 <= self.secs <= 10_000_000_000_000
    }

    /// The order of date-times: by the second, then by the nanoseconds. A
    /// leap second (nanoseconds past 10^9) comes after the second it is
    /// counted on and before the next one.
    pub open spec fn precedes(self, other: Timestamp) -> bool {
        self.secs < other.secs || (self.secs == other.secs && self.nanos < other.nanos)
    }

    /// The second of the day (UTC), from 0 to 86,399.
    pub open spec fn second_of_day(self) -> int {
        self.secs as int % 86_400
    }
}

/// Whether a timestamp lies in the range that date-times can hold.
pub fn in_range(t: Timestamp) -> (r: bool)
    ensures
        r == t.wf(),
{
    -10_000_000_000_000 <= t.secs && t.secs <= 10_000_000_000_000
}

/// Whether `a` comes strictly before `b`.
pub fn before(a: Timestamp, b: Timestamp) -> (r: bool)
    ensures
        r == a.precedes(b),
{
    a.secs < b.secs || (a.secs == b.secs && a.nanos < b.nanos)
}

/// The whole seconds that a leap second adds to the span from `start` to
/// `end` beyond their plain difference: a span that reaches a later second
/// of the day from a leap second counts that leap second whole (one more
/// second); one that reaches an earlier second of the day from a leap
/// second counts one less.
pub open spec fn leap_correction(start: Timestamp, end: Timestamp) -> int {
    if end.second_of_day() > start.second_of_day() && start.nanos >= 1_000_000_000 {
        1
    } else if end.second_of_day() < start.second_of_day() && end.nanos >= 1_000_000_000 {
        -1
    } else {
        0
    }
}

/// The nanoseconds from `start` to `end`, leap seconds counted as chrono's
/// `signed_duration_since` counts them.
pub open spec fn nanos_between(start: Timestamp, end: Timestamp) -> int {
    end.total_nanos() - start.total_nanos() + leap_correction(start, end) * 1_000_000_000
}

/// Integer division rounded toward zero.
pub open spec fn div_toward_zero(n: int, d: int) -> int {
    if n >= 0 {
        n / d
    } else {
        -((-n) / d)
    }
}

/// Whole milliseconds from `start` to `end`, rounded toward zero: what
/// `end.signed_duration_since(start).num_milliseconds()` gives.
pub fn millis_between(start: Timestamp, end: Timestamp) -> (r: i64)
    requires
        start.wf(),
        end.wf(),
    ensures
        r == div_toward_zero(nanos_between(start, end), 1_000_000),
{
    let ds: i128 = end.secs as i128 - start.secs as i128;
    // Shifted by a whole number of days past the range, the seconds are
    // never negative, and their remainder is the second of the day.
    let tod_start: u64 = ((start.secs + 17_280_000_000_000i64) as u64) % 86_400;
    let tod_end: u64 = ((end.secs + 17_280_000_000_000i64) as u64) % 86_400;
    proof {
        vstd::arithmetic::div_mod::lemma_mod_multiples_vanish(200_000_000, start.secs as int, 86_400);
        vstd::arithmetic::div_mod::lemma_mod_multiples_vanish(200_000_000, end.secs as int, 86_400);
        assert(86_400 * 200_000_000 + start.secs == start.secs + 17_280_000_000_000);
        assert(tod_start == start.second_of_day());
        assert(tod_end == end.second_of_day());
    }
    let adj: i128 = if tod_end > tod_start && start.nanos >= 1_000_000_000 {
        1
    } else if tod_end < tod_start && end.nanos >= 1_000_000_000 {
        -1
    } else {
        0
    };
    let d: i128 = ds * 1_000_000_000i128 + (end.nanos as i128 - start.nanos as i128) + adj
        * 1_000_000_000i128;
    assert(d == nanos_between(start, end)) by (nonlinear_arith)
        requires
            ds == end.secs - start.secs,
            adj == leap_correction(start, end),
            d == ds * 1_000_000_000 + (end.nanos - start.nanos) + adj * 1_000_000_000,
    ;
    let q: i128 = if d >= 0 {
        d / 1_000_000
    } else {
        -((-d) / 1_000_000)
    };
    assert(-30_000_000_000_000_000i128 <= q <= 30_000_000_000_000_000i128) by (nonlinear_arith)
        requires
            d >= 0 ==> q == d / 1_000_000,
            d < 0 ==> q == -((-d) / 1_000_000),
            -30_000_000_000_000_000_000_000i128 <= d <= 30_000_000_000_000_000_000_000i128,
    ;
    q as i64
}

/// The order of date-times is a strict total order, and between
/// date-times that are not leap seconds the span is the plain difference
/// of their nanoseconds since the epoch.
pub proof fn law_time_order_and_spans(a: Timestamp, b: Timestamp, c: Timestamp)
    ensures
        !a.precedes(a),
        a.precedes(b) ==> !b.precedes(a),
        a.precedes(b) && b.precedes(c) ==> a.precedes(c),
        a.precedes(b) || b.precedes(a) || a == b,
        a.nanos < 1_000_000_000 && b.nanos < 1_000_000_000 ==> nanos_between(a, b)
            == b.total_nanos() - a.total_nanos(),
        a.nanos < 1_000_000_000 && b.nanos < 1_000_000_000 ==> (a.precedes(b) <==> a.total_nanos()
            < b.total_nanos()),
{
    if a.nanos < 1_000_000_000 && b.nanos < 1_000_000_000 {
        assert(a.precedes(b) <==> a.total_nanos() < b.total_nanos()) by (nonlinear_arith)
            requires
                a.nanos < 1_000_000_000,
                b.nanos < 1_000_000_000,
                a.precedes(b) == (a.secs < b.secs || (a.secs == b.secs && a.nanos < b.nanos)),
                a.total_nanos() == a.secs * 1_000_000_000 + a.nanos,
                b.total_nanos() == b.secs * 1_000_000_000 + b.nanos,
        ;
    }
}

} // verus!
