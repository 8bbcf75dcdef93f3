use chrono::{DateTime, NaiveDate, NaiveDateTime, Utc};
use jjy_core::get_next_second;
use jjy_core::time::{Timestamp, MAX_SECS, MIN_SECS, NANOS_PER_SEC};
use std::time::Duration;

fn timestamp(at: NaiveDateTime) -> Timestamp {
    let at = at.and_utc();
    Timestamp::new(at.timestamp(), at.timestamp_subsec_nanos()).unwrap()
}

fn naive(at: Timestamp) -> NaiveDateTime {
    DateTime::from_timestamp(at.secs, at.nanos).unwrap().naive_utc()
}

fn at(h: u32, m: u32, s: u32, nanos: u32) -> NaiveDateTime {
    NaiveDate::from_ymd_opt(2016, 12, 31).unwrap().and_hms_nano_opt(h, m, s, nanos).unwrap()
}

/// Drops the nanoseconds and adds a second, in chrono's own arithmetic.
fn by_chrono(now: NaiveDateTime) -> (Duration, NaiveDateTime) {
    let nanos = now.and_utc().timestamp_subsec_nanos();
    let last_second = now - Duration::from_nanos(nanos as u64);
    let next_second = last_second + Duration::from_secs(1);
    ((next_second - now).to_std().unwrap(), next_second)
}

#[test]
fn from_a_whole_second_the_wait_is_one_second() {
    let now = Timestamp::new(1_080_840_300, 0).unwrap();
    let (wait, next) = get_next_second(now);
    assert_eq!(wait, Duration::from_secs(1));
    assert_eq!(next, Timestamp { secs: 1_080_840_301, nanos: 0 });
}

#[test]
fn within_a_second_the_rest_of_it_is_the_wait() {
    let now = Timestamp::new(1_080_840_300, 250_000_000).unwrap();
    let (wait, next) = get_next_second(now);
    assert_eq!(wait, Duration::from_millis(750));
    assert_eq!(next, Timestamp { secs: 1_080_840_301, nanos: 0 });

    let now = Timestamp::new(1_080_840_300, 999_999_999).unwrap();
    let (wait, next) = get_next_second(now);
    assert_eq!(wait, Duration::from_nanos(1));
    assert_eq!(next, Timestamp { secs: 1_080_840_301, nanos: 0 });

    let now = Timestamp::new(1_080_840_300, 1).unwrap();
    let (wait, _) = get_next_second(now);
    assert_eq!(wait, Duration::from_nanos(999_999_999));
}

#[test]
fn before_1970_the_count_still_goes_up() {
    let now = Timestamp::new(-1, 600_000_000).unwrap();
    let (wait, next) = get_next_second(now);
    assert_eq!(wait, Duration::from_millis(400));
    assert_eq!(next, Timestamp { secs: 0, nanos: 0 });
}

#[test]
fn within_a_leap_second_the_next_minute_follows() {
    // 08:59:60.3, written as 08:59:59 with 1.3 billion nanoseconds.
    let now = timestamp(at(8, 59, 59, 1_300_000_000));
    let (wait, next) = get_next_second(now);
    assert_eq!(wait, Duration::from_millis(700));
    assert_eq!(naive(next), at(9, 0, 0, 0));

    let now = timestamp(at(8, 59, 59, 1_000_000_000));
    let (wait, next) = get_next_second(now);
    assert_eq!(wait, Duration::from_secs(1));
    assert_eq!(naive(next), at(9, 0, 0, 0));
}

#[test]
fn the_wait_is_never_zero_nor_two_seconds() {
    let whole = timestamp(at(23, 59, 59, 0));
    for nanos in [0, 1, 500_000_000, 999_999_999, 1_000_000_000, 1_500_000_000, 1_999_999_999] {
        let now = Timestamp::new(whole.secs, nanos).unwrap();
        let (wait, next) = get_next_second(now);
        assert!(wait > Duration::ZERO, "{nanos}");
        assert!(wait <= Duration::from_secs(1), "{nanos}");
        assert!(wait < Duration::from_secs(2), "{nanos}");
        assert_eq!(next, Timestamp { secs: whole.secs + 1, nanos: 0 }, "{nanos}");
    }
}

#[test]
fn agrees_with_chrono() {
    let times = [
        at(0, 0, 0, 0),
        at(0, 0, 0, 1),
        at(8, 59, 59, 999_999_999),
        at(8, 59, 59, 1_000_000_000),
        at(8, 59, 59, 1_750_000_000),
        at(12, 34, 56, 789_000_000),
        at(23, 59, 59, 0),
        at(23, 59, 59, 500_000_000),
        NaiveDate::from_ymd_opt(1969, 12, 31).unwrap().and_hms_nano_opt(23, 59, 59, 1).unwrap(),
        NaiveDate::from_ymd_opt(-44, 3, 15).unwrap().and_hms_nano_opt(11, 0, 0, 5).unwrap(),
    ];
    for now in times {
        let (wait, next) = get_next_second(timestamp(now));
        let (chrono_wait, chrono_next) = by_chrono(now);
        assert_eq!(wait, chrono_wait, "{now}");
        assert_eq!(naive(next), chrono_next, "{now}");
    }
}

#[test]
fn across_midnight_out_of_a_leap_second_the_wait_stays_positive() {
    // chrono's difference between midnight and a leap second before it is
    // zero or negative; the wait is still the rest of the leap second.
    let now = at(23, 59, 59, 1_250_000_000);
    let midnight = NaiveDate::from_ymd_opt(2017, 1, 1).unwrap().and_hms_opt(0, 0, 0).unwrap();
    assert!((midnight - now).to_std().is_err());
    let (wait, next) = get_next_second(timestamp(now));
    assert_eq!(wait, Duration::from_millis(750));
    assert_eq!(naive(next), midnight);
}

#[test]
fn bounds_are_those_of_the_calendar() {
    assert_eq!(MIN_SECS, DateTime::<Utc>::MIN_UTC.timestamp());
    assert_eq!(MAX_SECS, DateTime::<Utc>::MAX_UTC.timestamp());
    assert!(DateTime::from_timestamp(MIN_SECS, 0).is_some());
    assert!(DateTime::from_timestamp(MAX_SECS, 0).is_some());
    assert!(DateTime::from_timestamp(MIN_SECS - 1, 0).is_none());
    assert!(DateTime::from_timestamp(MAX_SECS + 1, 0).is_none());
    assert_eq!(NANOS_PER_SEC, 1_000_000_000);
}

#[test]
fn timestamp_within_the_bounds() {
    assert_eq!(Timestamp::new(0, 0), Some(Timestamp { secs: 0, nanos: 0 }));
    assert_eq!(Timestamp::new(MIN_SECS, 0), Some(Timestamp { secs: MIN_SECS, nanos: 0 }));
    assert_eq!(
        Timestamp::new(MAX_SECS, 999_999_999),
        Some(Timestamp { secs: MAX_SECS, nanos: 999_999_999 })
    );
    assert_eq!(Timestamp::new(MIN_SECS - 1, 0), None);
    assert_eq!(Timestamp::new(MAX_SECS + 1, 0), None);
    assert_eq!(Timestamp::new(i64::MIN, 0), None);
    assert_eq!(Timestamp::new(i64::MAX, 0), None);
}

#[test]
fn leap_second_only_at_the_end_of_a_minute() {
    assert_eq!(
        Timestamp::new(59, 1_000_000_000),
        Some(Timestamp { secs: 59, nanos: 1_000_000_000 })
    );
    assert_eq!(
        Timestamp::new(-1, 1_999_999_999),
        Some(Timestamp { secs: -1, nanos: 1_999_999_999 })
    );
    assert_eq!(Timestamp::new(MAX_SECS, 1_999_999_999).map(|t| t.nanos), Some(1_999_999_999));
    assert_eq!(Timestamp::new(58, 1_000_000_000), None);
    assert_eq!(Timestamp::new(0, 1_000_000_000), None);
    assert_eq!(Timestamp::new(-2, 1_000_000_000), None);
    assert_eq!(Timestamp::new(59, 2_000_000_000), None);
    assert_eq!(Timestamp::new(59, u32::MAX), None);
}

#[test]
fn timestamp_is_valid_where_chrono_has_a_time() {
    let seconds = [MIN_SECS, -61, -60, -1, 0, 58, 59, 60, 86_399, 1_483_228_799, MAX_SECS];
    let nanos = [0, 999_999_999, 1_000_000_000, 1_999_999_999, 2_000_000_000];
    for secs in seconds {
        for n in nanos {
            assert_eq!(
                Timestamp::new(secs, n).is_some(),
                DateTime::from_timestamp(secs, n).is_some(),
                "{secs} s, {n} ns"
            );
        }
    }
}
