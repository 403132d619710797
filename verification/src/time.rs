//! Points in time and spans of time as plain integers.

use vstd::prelude::*;

verus! {

/// A point in time: whole seconds since the Unix epoch and the nanoseconds past them.
#[derive(Debug, Clone, Copy, PartialEq, Eq, Structural)]
pub struct Timestamp {
    pub secs: i64,
    pub nanos: u32,
}

/// The least second that the calendar can name.
pub const FIRST_SECOND: i64 = -8_334_601_228_800;

/// The greatest second that the calendar can name.
pub const LAST_SECOND: i64 = 8_210_266_876_799;

impl Timestamp {
    /// Nanoseconds since the epoch.
    pub open spec fn instant(self) -> int {
        self.secs * 1_000_000_000 + self.nanos
    }

    /// The calendar can name this second.
    pub open spec fn in_calendar(self) -> bool {
        FIRST_SECOND <= self.secs <= LAST_SECOND
    }

    /// Seconds since midnight, UTC.
    pub open spec fn second_of_day(self) -> int {
        self.secs as int % 86_400
    }

    /// The nanoseconds from `earlier` to `self`, negative where it comes later.
    pub fn since(self, earlier: Timestamp) -> (r: i128)
        ensures
            r == self.instant() - earlier.instant(),
    {
        (self.secs as i128 * 1_000_000_000 + self.nanos as i128) - (earlier.secs as i128
            * 1_000_000_000 + earlier.nanos as i128)
    }

    /// Seconds since midnight, UTC.
    pub fn seconds_into_day(self) -> (r: u32)
        ensures
            r == self.second_of_day(),
            r < 86_400,
    {
        let n: i128 = self.secs as i128 + 9_223_372_036_854_806_400;
        assert(9_223_372_036_854_806_400int % 86_400 == 0);
        assert(n as int % 86_400 == self.secs as int % 86_400);
        (n % 86_400) as u32
    }
}

/// A span of time in nanoseconds, at most what a `std::time::Duration` can hold.
#[derive(Debug, Clone, Copy, PartialEq, Eq, Structural)]
pub struct Span {
    pub nanos: u128,
}

/// The longest span that can be compared with the distance of two points in
/// time, in nanoseconds: `i64::MAX` milliseconds.
pub const LONGEST_DISTANCE: u128 = 9_223_372_036_854_775_807_000_000;

/// The longest span: `u64::MAX` seconds and the nanoseconds up to the next.
pub const LONGEST: u128 = 18_446_744_073_709_551_615_999_999_999;

impl Span {
    /// The span is one that a `Duration` can hold.
    pub open spec fn wf(self) -> bool {
        self.nanos <= LONGEST
    }

    /// The span can be compared with the distance of two points in time.
    pub open spec fn comparable(self) -> bool {
        self.nanos <= LONGEST_DISTANCE
    }

    /// Tells whether the span can be compared with the distance of two points in time.
    pub fn is_comparable(self) -> (r: bool)
        ensures
            r == self.comparable(),
    {
        self.nanos <= LONGEST_DISTANCE
    }

    /// A span of whole seconds.
    pub fn from_secs(secs: u64) -> (r: Span)
        ensures
            r.wf(),
            r.nanos == secs * 1_000_000_000,
    {
        Span { nanos: secs as u128 * 1_000_000_000 }
    }

    /// A span of milliseconds.
    pub fn from_millis(millis: u64) -> (r: Span)
        ensures
            r.wf(),
            r.nanos == millis * 1_000_000,
    {
        Span { nanos: millis as u128 * 1_000_000 }
    }
}

/// Seconds and nanoseconds count alike on both sides of a distance, and a point in
/// time lies as far after another as that one before it.
pub proof fn distances_count_nanoseconds(a: Timestamp, b: Timestamp, r: i128, back: i128)
    requires
        call_ensures(Timestamp::since, (a, b), r),
        call_ensures(Timestamp::since, (b, a), back),
    ensures
        r == (a.secs - b.secs) * 1_000_000_000 + (a.nanos - b.nanos),
        back == -r,
{
}

/// A second is a thousand milliseconds, a thousand million nanoseconds.
pub proof fn spans_count_nanoseconds(n: u64, secs: Span, millis: Span)
    requires
        call_ensures(Span::from_secs, (n,), secs),
        call_ensures(Span::from_millis, (n,), millis),
    ensures
        secs.nanos == n * 1_000_000_000,
        millis.nanos * 1000 == secs.nanos,
{
}

} // verus!
