use chrono::{TimeZone, Timelike, Utc};
use sttp::{Ticks, UtcDateTime};

const TEST_TICK_VAL: u64 = 637669683993391278;

fn test_datetime() -> UtcDateTime {
    let dt = Utc
        .with_ymd_and_hms(2021, 9, 11, 14, 46, 39)
        .unwrap()
        .with_nanosecond(339127800)
        .unwrap();
    UtcDateTime::new(dt.timestamp(), dt.timestamp_subsec_nanos())
}

fn test_ticks() -> Ticks {
    Ticks::new(TEST_TICK_VAL)
}

#[test]
fn test_ticks_from_datetime() {
    let ticks = Ticks::from_datetime(test_datetime());

    assert_eq!(ticks.val, TEST_TICK_VAL);
}

#[test]
fn test_ticks_to_datetime() {
    let dt = test_ticks().to_datetime();

    assert_eq!(dt, test_datetime());
}

#[test]
fn test_ticks_is_leap_second() {
    let ticks = test_ticks();
    let leap_second_ticks = ticks.set_leap_second();

    assert!(!ticks.is_leap_second());
    assert!(leap_second_ticks.is_leap_second());
}

#[test]
fn test_ticks_set_leap_second() {
    let ticks = test_ticks();
    let leap_second_ticks = ticks.set_leap_second();

    assert_eq!(leap_second_ticks.val, ticks.val | Ticks::LEAP_SECOND_FLAG);
}

#[test]
fn test_ticks_is_negative_leap_second() {
    let ticks = test_ticks();
    let negative_leap_second_ticks = ticks.set_negative_leap_second();

    assert!(!ticks.is_negative_leap_second());
    assert!(negative_leap_second_ticks.is_negative_leap_second());
}

#[test]
fn test_ticks_set_negative_leap_second() {
    let ticks = test_ticks();
    let negative_leap_second_ticks = ticks.set_negative_leap_second();

    assert_eq!(
        negative_leap_second_ticks.val,
        ticks.val | Ticks::LEAP_SECOND_FLAG | Ticks::LEAP_SECOND_DIRECTION
    );
}

#[test]
fn test_ticks_to_string() {
    let ticks = test_ticks();
    let string_representation = ticks.to_string();

    assert_eq!(string_representation, "2021-09-11 14:46:39.339127800");
}

#[test]
fn test_ticks_to_short_string() {
    let ticks = test_ticks();
    let short_string_representation = ticks.to_short_string();

    assert_eq!(short_string_representation, "14:46:39.339");
}

#[test]
fn datetime_round_trip_keeps_instant() {
    for dt in [
        test_datetime(),
        UtcDateTime::new(0, 0),
        UtcDateTime::new(-62_135_596_800, 0),
        UtcDateTime::new(-1, 999_999_900),
        UtcDateTime::new(253_402_300_799, 999_999_900),
    ] {
        assert_eq!(Ticks::from_datetime(dt).to_datetime(), dt);
    }
}

#[test]
fn from_datetime_truncates_below_100ns_and_saturates() {
    let dt = UtcDateTime::new(0, 199);
    assert_eq!(Ticks::from_datetime(dt).val, Ticks::UNIX_BASE_OFFSET + 1);
    assert_eq!(Ticks::from_datetime(UtcDateTime::new(-62_135_596_801, 0)).val, 0);
    assert_eq!(Ticks::from_datetime(UtcDateTime::new(i64::MAX, 0)).val, Ticks::VALUE_MASK);
}

#[test]
fn to_datetime_before_unix_epoch() {
    let t = Ticks::new(Ticks::UNIX_BASE_OFFSET - 1);
    assert_eq!(t.to_datetime(), UtcDateTime::new(-1, 999_999_900));
    assert_eq!(Ticks::new(0).to_datetime(), UtcDateTime::new(-62_135_596_800, 0));
}

#[test]
fn from_duration_counts_ticks() {
    assert_eq!(Ticks::from_duration(1, 500).val, 10_000_005);
    assert_eq!(Ticks::from_duration(u64::MAX, 0).val, Ticks::VALUE_MASK);
}

#[test]
fn leap_second_flags_keep_time_value() {
    let t = Ticks::new(TEST_TICK_VAL);
    assert_eq!(t.set_leap_second().timestamp_value(), TEST_TICK_VAL);
    let n = t.set_negative_leap_second();
    assert!(n.is_leap_second());
    assert!(n.is_negative_leap_second());
    assert_eq!(n.timestamp_value(), TEST_TICK_VAL);
    let mut m = t;
    m.apply_leap_second();
    assert_eq!(m, t.set_leap_second());
    let mut k = t;
    k.apply_negative_leap_second();
    assert_eq!(k, n);
}

#[test]
fn timestamp_value_masks_flags() {
    let t = Ticks::new(u64::MAX);
    assert_eq!(t.timestamp_value(), Ticks::VALUE_MASK);
}

#[test]
fn text_helpers_reshape_rfc3339() {
    assert_eq!(
        sttp::ticks::timestamp_text_from_rfc3339("2021-09-11T14:46:39.339127800Z"),
        "2021-09-11 14:46:39.339127800"
    );
    assert_eq!(sttp::ticks::timestamp_text_from_rfc3339(""), "");
    assert_eq!(sttp::ticks::time_of_day_text("2021-09-11 14:46:39.339127800"), "14:46:39.339");
    assert_eq!(sttp::ticks::time_of_day_text("no-space"), "");
    assert_eq!(sttp::ticks::time_of_day_text("a 12345"), "");
}

#[test]
fn utc_now_is_after_2020() {
    let now = Ticks::utc_now();
    assert!(now.val > 637_134_336_000_000_000);
    assert!(!now.is_leap_second());
    assert!(Ticks::now().val >= now.val);
}

#[test]
fn to_string_of_year_one() {
    assert_eq!(Ticks::new(0).to_string(), "0001-01-01 00:00:00.000000000");
    assert_eq!(Ticks::new(0).to_short_string(), "00:00:00.000");
}

#[test]
fn tick_arithmetic_on_raw_values() {
    let a = Ticks::new(30);
    let b = Ticks::new(12);
    assert_eq!((a + b).val, 42);
    assert_eq!((a - b).val, 18);
    assert_eq!((a * b).val, 360);
    assert_eq!((a / b).val, 2);
    assert_eq!((Ticks::new(u64::MAX) + Ticks::new(2)).val, 1);
    assert_eq!((b - a).val, u64::MAX - 17);
}

#[test]
fn leap_second_instant_round_trips() {
    let dt = UtcDateTime::new(1_483_228_799, 1_500_000_000);
    let t = Ticks::from_datetime(dt);
    assert!(t.is_leap_second());
    assert!(!t.is_negative_leap_second());
    assert_eq!(t.timestamp_value(), Ticks::from_datetime(UtcDateTime::new(1_483_228_799, 500_000_000)).val);
    assert_eq!(t.to_datetime(), dt);
    assert_eq!(t.to_string(), "2016-12-31 23:59:59.500000000");
    let negative = t.set_negative_leap_second();
    assert_eq!(negative.to_datetime(), UtcDateTime::new(1_483_228_799, 500_000_000));
}
