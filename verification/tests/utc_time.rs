use grand_music_cup::current_millis;
use grand_music_cup::utc::{UtcTime, UNIX_TIMESTAMP_MAX, UNIX_TIMESTAMP_MIN};

#[test]
fn from_unix_timestamp_covers_the_range_of_time() {
    assert_eq!(UtcTime::from_unix_timestamp(0).unwrap().unix_timestamp(), 0);
    assert_eq!(UtcTime::from_unix_timestamp(UNIX_TIMESTAMP_MAX).unwrap().unix_timestamp(), UNIX_TIMESTAMP_MAX);
    assert_eq!(UtcTime::from_unix_timestamp(UNIX_TIMESTAMP_MIN).unwrap().unix_timestamp(), UNIX_TIMESTAMP_MIN);
    assert!(UtcTime::from_unix_timestamp(UNIX_TIMESTAMP_MAX + 1).is_none());
    assert!(UtcTime::from_unix_timestamp(UNIX_TIMESTAMP_MIN - 1).is_none());
    assert!(UtcTime::from_unix_timestamp(i64::MAX).is_none());
}

#[test]
fn new_checks_timestamp_and_nanoseconds() {
    let t = UtcTime::new(10, 999_999_999).unwrap();
    assert_eq!(t.unix_timestamp(), 10);
    assert_eq!(t.nanosecond(), 999_999_999);
    assert!(UtcTime::new(10, 1_000_000_000).is_none());
    assert!(UtcTime::new(UNIX_TIMESTAMP_MAX + 1, 0).is_none());
}

#[test]
fn is_after_orders_seconds_then_nanoseconds() {
    let a = UtcTime::new(10, 5).unwrap();
    let b = UtcTime::new(10, 6).unwrap();
    let c = UtcTime::new(11, 0).unwrap();
    assert!(b.is_after(&a));
    assert!(!a.is_after(&b));
    assert!(!a.is_after(&a));
    assert!(c.is_after(&b));
}

#[test]
fn now_is_after_2020() {
    let now = UtcTime::now();
    assert!(now.unix_timestamp() > 1_577_836_800);
    assert!(now.nanosecond() < 1_000_000_000);
}

#[test]
fn current_millis_reads_the_clock() {
    let ms = current_millis().unwrap();
    assert!(ms > 1_577_836_800_000);
}

#[test]
fn from_unix_millis_splits_seconds_and_nanoseconds() {
    let t = UtcTime::from_unix_millis(1_787_681_355_986).unwrap();
    assert_eq!(t.unix_timestamp(), 1_787_681_355);
    assert_eq!(t.nanosecond(), 986_000_000);
    assert!(UtcTime::from_unix_millis(u64::MAX).is_none());
    assert!(UtcTime::from_unix_millis(253_402_300_799_999).is_some());
    assert!(UtcTime::from_unix_millis(253_402_300_800_000).is_none());
}
