use sensor_feed::fixed_time::{CalendarTimestamp, FixedPointTime};

#[test]
fn half_second_fraction() {
    let t = FixedPointTime { seconds: 42, fraction: 0x8000_0000 };
    let c = t.to_calendar_time();
    assert_eq!(c.epoch_seconds, 42);
    assert_eq!(c.nanoseconds, 500_000_000);
}

#[test]
fn small_fractions_round_to_nearest() {
    // One tick is 10^9/2^32 ns, about 0.233 ns: it rounds down to 0,
    // while five ticks (about 1.16 ns) round to 1.
    let one = FixedPointTime { seconds: 0, fraction: 1 };
    assert_eq!(one.to_calendar_time().nanoseconds, 0);
    let five = FixedPointTime { seconds: 0, fraction: 5 };
    assert_eq!(five.to_calendar_time().nanoseconds, 1);
}

#[test]
fn fraction_next_to_a_full_second_rounds_up_not_down() {
    // Rounding, not truncation: the largest fraction resolves to a
    // full 10^9 nanoseconds rather than losing nearly 1 ns.
    let t = FixedPointTime { seconds: 7, fraction: 0xFFFF_FFFF };
    let c = t.to_calendar_time();
    assert_eq!(c.epoch_seconds, 7);
    assert_eq!(c.nanoseconds, 1_000_000_000);
}

#[test]
fn larger_seconds_resolve_strictly_later() {
    // Monotonic even against the most extreme fractions.
    let late = FixedPointTime { seconds: 10, fraction: 0 };
    let early = FixedPointTime { seconds: 9, fraction: 0xFFFF_FFFF };
    let c_late = late.to_calendar_time();
    let c_early = early.to_calendar_time();
    assert!(c_early.is_before(&c_late));
    assert!(!c_late.is_before(&c_early));
}

#[test]
fn is_before_orders_by_nanoseconds_within_a_second() {
    let a = CalendarTimestamp { epoch_seconds: 5, nanoseconds: 10 };
    let b = CalendarTimestamp { epoch_seconds: 5, nanoseconds: 11 };
    assert!(a.is_before(&b));
    assert!(!b.is_before(&a));
    assert!(!a.is_before(&a));
}

#[test]
fn encoding_a_wall_clock_time() {
    let t = FixedPointTime::from_seconds_and_nanos(1234, 500_000_000);
    assert_eq!(t.seconds, 1234);
    assert_eq!(t.fraction, 0x8000_0000);
    let zero = FixedPointTime::from_seconds_and_nanos(9, 0);
    assert_eq!(zero.fraction, 0);
}

#[test]
fn encoding_then_resolving_loses_less_than_a_nanosecond() {
    let nanos: [u32; 4] = [1, 123_456_789, 999_999_999, 250_000_000];
    for n in nanos {
        let t = FixedPointTime::from_seconds_and_nanos(0, n);
        let back = t.to_calendar_time().nanoseconds;
        let diff = if back > n { back - n } else { n - back };
        assert!(diff <= 1);
    }
}
