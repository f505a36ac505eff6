//! The device's 64-bit fixed-point timestamp.
//!
//! A timestamp is a 32-bit seconds count since the start of the year
//! 1900 (UTC) plus a 32-bit count of 1/2^32 fractions of a second. For
//! display it is turned into whole seconds since that epoch plus a
//! rounded nanosecond remainder.

use vstd::prelude::*;

verus! {

/// Seconds since the 1900 epoch plus fraction/2^32 of a second.
#[derive(Clone, Copy, Debug, PartialEq, Eq, Structural)]
pub struct FixedPointTime {
    pub seconds: u32,
    pub fraction: u32,
}

/// A timestamp resolved against the 1900 epoch: whole seconds plus a
/// rounded nanosecond remainder.
///
/// `nanoseconds` can reach exactly 1_000_000_000 when the fraction is
/// within two ticks of a full second: rounding is kept in preference to
/// truncation, and no carry into the seconds is performed, so the pair
/// orders the same way as the exact fixed-point value.
#[derive(Clone, Copy, Debug, PartialEq, Eq, Structural)]
pub struct CalendarTimestamp {
    pub epoch_seconds: u32,
    pub nanoseconds: u32,
}

/// `round(f * 10^9 / 2^32)`, the nanosecond value of a fraction count.
pub open spec fn spec_nanos_of_fraction(f: u32) -> int {
    (f * 1_000_000_000 + 0x8000_0000) / 0x1_0000_0000
}

/// `round(n * 2^32 / 10^9)`, the fraction count of a nanosecond value.
pub open spec fn spec_fraction_of_nanos(n: u32) -> int {
    (n * 0x1_0000_0000 + 500_000_000) / 1_000_000_000
}

/// What `to_calendar_time` returns.
pub open spec fn spec_calendar(t: FixedPointTime) -> CalendarTimestamp {
    CalendarTimestamp {
        epoch_seconds: t.seconds,
        nanoseconds: spec_nanos_of_fraction(t.fraction) as u32,
    }
}

/// Strict order on resolved timestamps: seconds first, then nanoseconds.
pub open spec fn spec_calendar_lt(a: CalendarTimestamp, b: CalendarTimestamp) -> bool {
    a.epoch_seconds < b.epoch_seconds || (a.epoch_seconds == b.epoch_seconds
        && a.nanoseconds < b.nanoseconds)
}

/// The nanosecond value of any fraction stays within one second.
proof fn lemma_nanos_bounded(f: u32)
    ensures
        0 <= spec_nanos_of_fraction(f) <= 1_000_000_000,
{
    assert(f * 1_000_000_000 + 0x8000_0000 <= 0xFFFF_FFFF * 1_000_000_000 + 0x8000_0000)
        by (nonlinear_arith)
        requires
            f <= 0xFFFF_FFFF,
    ;
    assert((0xFFFF_FFFFu64 * 1_000_000_000 + 0x8000_0000) / 0x1_0000_0000 == 1_000_000_000);
    vstd::arithmetic::div_mod::lemma_div_is_ordered(
        f * 1_000_000_000 + 0x8000_0000,
        0xFFFF_FFFFint * 1_000_000_000 + 0x8000_0000,
        0x1_0000_0000,
    );
}

/// The fraction count of any nanosecond value below one second fits in
/// 32 bits.
proof fn lemma_fraction_bounded(n: u32)
    requires
        n < 1_000_000_000,
    ensures
        0 <= spec_fraction_of_nanos(n) <= 0xFFFF_FFFF,
{
    assert(n * 0x1_0000_0000 + 500_000_000 <= 999_999_999 * 0x1_0000_0000 + 500_000_000)
        by (nonlinear_arith)
        requires
            n <= 999_999_999,
    ;
    assert((999_999_999u64 * 0x1_0000_0000 + 500_000_000) / 1_000_000_000 <= 0xFFFF_FFFF);
    vstd::arithmetic::div_mod::lemma_div_is_ordered(
        n * 0x1_0000_0000 + 500_000_000,
        999_999_999int * 0x1_0000_0000 + 500_000_000,
        1_000_000_000,
    );
}

impl FixedPointTime {
    /// Resolve the timestamp for display: the seconds carry over and the
    /// fraction becomes `round(fraction * 10^9 / 2^32)` nanoseconds.
    pub fn to_calendar_time(&self) -> (r: CalendarTimestamp)
        ensures
            r == spec_calendar(*self),
            r.epoch_seconds == self.seconds,
            r.nanoseconds == spec_nanos_of_fraction(self.fraction),
            r.nanoseconds <= 1_000_000_000,
    {
        proof {
            lemma_nanos_bounded(self.fraction);
        }
        let scaled: u64 = (self.fraction as u64) * 1_000_000_000;
        let nanos: u64 = (scaled + 0x8000_0000) / 0x1_0000_0000;
        CalendarTimestamp { epoch_seconds: self.seconds, nanoseconds: nanos as u32 }
    }

    /// The inverse direction, used when a wall-clock time is transmitted
    /// to the device: the fraction becomes `round(n * 2^32 / 10^9)`.
    pub fn from_seconds_and_nanos(seconds: u32, nanoseconds: u32) -> (r: FixedPointTime)
        requires
            nanoseconds < 1_000_000_000,
        ensures
            r.seconds == seconds,
            r.fraction == spec_fraction_of_nanos(nanoseconds),
    {
        proof {
            lemma_fraction_bounded(nanoseconds);
        }
        let scaled: u64 = (nanoseconds as u64) * 0x1_0000_0000;
        let fraction: u64 = (scaled + 500_000_000) / 1_000_000_000;
        FixedPointTime { seconds, fraction: fraction as u32 }
    }
}

impl CalendarTimestamp {
    /// Whether this resolved timestamp lies strictly before another.
    pub fn is_before(&self, other: &CalendarTimestamp) -> (r: bool)
        ensures
            r == spec_calendar_lt(*self, *other),
    {
        self.epoch_seconds < other.epoch_seconds || (self.epoch_seconds == other.epoch_seconds
            && self.nanoseconds < other.nanoseconds)
    }
}

/// Conversion to calendar time is monotonic in the seconds: a timestamp
/// with a larger seconds count resolves strictly later, whatever either
/// fraction is.
pub proof fn lemma_calendar_monotonic(a: FixedPointTime, b: FixedPointTime)
    requires
        a.seconds > b.seconds,
    ensures
        spec_calendar_lt(spec_calendar(b), spec_calendar(a)),
{
}

} // verus!
