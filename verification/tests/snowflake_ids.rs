use grand_music_cup::snowflake::{Snowflake, SnowflakeCounter, SnowflakeError, TIMESTAMP_LIMIT};
use grand_music_cup::utc::UtcTime;
use grand_music_cup::U10;

fn at(ts: i64) -> UtcTime {
    UtcTime::from_unix_timestamp(ts).unwrap()
}

#[test]
fn u10_accepts_ten_bits_only() {
    assert_eq!(U10::MAX, 1023);
    assert_eq!(U10::MIN, 0);
    assert_eq!(U10::BITS, 10);
    assert_eq!(U10::new(0).unwrap().as_u16(), 0);
    assert_eq!(U10::new(1023).unwrap().as_u16(), 1023);
    assert!(U10::new(1024).is_none());
    assert!(U10::new(u16::MAX).is_none());
}

#[test]
fn counter_counts_up_and_wraps() {
    let mut counter = SnowflakeCounter::new();
    assert_eq!(counter.advance(), 0);
    assert_eq!(counter.advance(), 1);
    assert_eq!(counter.advance(), 2);
    for _ in 3..0xFFF {
        counter.advance();
    }
    assert_eq!(counter.advance(), 0xFFF);
    assert_eq!(counter.advance(), 0);
}

#[test]
fn counter_repeats_after_4096_advances() {
    let mut counter = SnowflakeCounter::new();
    for _ in 0..10 {
        counter.advance();
    }
    let first = counter.advance();
    for _ in 0..4095 {
        counter.advance();
    }
    assert_eq!(counter.advance(), first);
}

#[test]
fn from_clock_packs_the_fields() {
    let epoch = at(1_000_000_000);
    let now = at(1_000_000_100);
    let s = Snowflake::from_clock(&epoch, U10::new(5).unwrap(), 7, &now).unwrap();
    assert_eq!(s.as_i64(), (100 << 22) | (5 << 12) | 7);
    assert_eq!(s.timestamp().unix_timestamp(), 1_000_000_100);
    assert_eq!(s.timestamp().nanosecond(), 0);
    assert_eq!(s.machine_id().as_u16(), 5);
    assert_eq!(s.counter(), 7);
    assert_eq!(s.epoch().unix_timestamp(), 1_000_000_000);
}

#[test]
fn from_clock_keeps_only_four_bits_of_the_machine_id() {
    let epoch = at(0);
    let now = at(60);
    let s = Snowflake::from_clock(&epoch, U10::new(0x3FF).unwrap(), 0xFFF, &now).unwrap();
    assert_eq!(s.machine_id().as_u16(), 0xF);
    assert_eq!(s.counter(), 0xFFF);
    assert_eq!(s.as_i64(), (60 << 22) | (0xF << 12) | 0xFFF);
}

#[test]
fn from_clock_refuses_timestamps_out_of_range() {
    let epoch = at(1_000);
    assert_eq!(
        Snowflake::from_clock(&epoch, U10::new(1).unwrap(), 0, &at(1_000)).unwrap_err(),
        SnowflakeError::TimestampOutOfRange
    );
    assert_eq!(
        Snowflake::from_clock(&epoch, U10::new(1).unwrap(), 0, &at(999)).unwrap_err(),
        SnowflakeError::TimestampOutOfRange
    );
    let widest = Snowflake::from_clock(&at(-377_705_116_800), U10::new(1).unwrap(), 0, &at(253_402_300_799)).unwrap();
    assert_eq!(widest.timestamp().unix_timestamp(), 253_402_300_799);
    assert!(253_402_300_799i64 + 377_705_116_800 < TIMESTAMP_LIMIT);
}

#[test]
fn new_unique_makes_increasing_counters() {
    let epoch = at(1_600_000_000);
    let mut counter = SnowflakeCounter::new();
    let a = Snowflake::new_unique(epoch, U10::new(3).unwrap(), &mut counter).unwrap();
    let b = Snowflake::new_unique(epoch, U10::new(3).unwrap(), &mut counter).unwrap();
    assert_eq!(a.counter(), 0);
    assert_eq!(b.counter(), 1);
    assert_eq!(a.machine_id().as_u16(), 3);
    assert!(a.timestamp().unix_timestamp() > 1_600_000_000);
    assert_eq!(a.epoch().unix_timestamp(), 1_600_000_000);
}

#[test]
fn new_unique_refuses_an_epoch_in_the_future() {
    let epoch = at(253_402_300_799);
    let mut counter = SnowflakeCounter::new();
    let r = Snowflake::new_unique(epoch, U10::new(3).unwrap(), &mut counter);
    assert_eq!(r.unwrap_err(), SnowflakeError::EpochInFuture);
    assert_eq!(counter.advance(), 0);
}

#[test]
fn from_i64_at_rebuilds_a_made_snowflake() {
    let epoch = at(1_000_000_000);
    let s = Snowflake::from_clock(&epoch, U10::new(9).unwrap(), 42, &at(1_000_500_000)).unwrap();
    let t = Snowflake::from_i64_at(&epoch, s.as_i64(), &at(1_600_000_000)).unwrap();
    assert_eq!(t.as_i64(), s.as_i64());
    assert_eq!(t.timestamp().unix_timestamp(), 1_000_500_000);
    assert_eq!(t.machine_id().as_u16(), 9);
    assert_eq!(t.counter(), 42);
    let c = t.clone();
    assert_eq!(c.as_i64(), t.as_i64());
}

#[test]
fn from_i64_at_refuses_an_epoch_after_now() {
    let r = Snowflake::from_i64_at(&at(2_000), 1 << 22, &at(1_999));
    assert_eq!(r.unwrap_err(), SnowflakeError::EpochInFuture);
    let later_nanos = UtcTime::new(2_000, 5).unwrap();
    let r = Snowflake::from_i64_at(&later_nanos, 1 << 22, &at(2_000));
    assert_eq!(r.unwrap_err(), SnowflakeError::EpochInFuture);
}

#[test]
fn from_i64_at_refuses_moments_that_cannot_be_represented() {
    let epoch = at(1_000_000_000);
    let r = Snowflake::from_i64_at(&epoch, i64::MAX, &at(1_600_000_000));
    assert_eq!(r.unwrap_err(), SnowflakeError::TimestampOutOfRange);
    let r = Snowflake::from_i64_at(&epoch, -1, &at(1_600_000_000));
    assert_eq!(r.unwrap_err(), SnowflakeError::TimestampOutOfRange);
}

#[test]
fn from_i64_at_reads_a_negative_value_without_its_sign_bit() {
    let epoch = at(0);
    let value = i64::MIN | (100 << 22) | (2 << 12) | 1;
    let s = Snowflake::from_i64_at(&epoch, value, &at(1_000)).unwrap();
    assert_eq!(s.timestamp().unix_timestamp(), 100);
    assert_eq!(s.machine_id().as_u16(), 2);
    assert_eq!(s.counter(), 1);
    assert_eq!(s.as_i64(), value);
}

#[test]
fn from_i64_uses_the_clock() {
    let epoch = at(0);
    let s = Snowflake::from_i64(epoch, (5 << 22) | 3).unwrap();
    assert_eq!(s.timestamp().unix_timestamp(), 5);
    let future = at(253_402_300_000);
    assert_eq!(Snowflake::from_i64(future, 1).unwrap_err(), SnowflakeError::EpochInFuture);
}

#[test]
fn new_unique_at_refuses_an_epoch_after_the_first_reading() {
    let epoch = UtcTime::new(1_000_000_000, 5).unwrap();
    let first = UtcTime::new(1_000_000_000, 4).unwrap();
    let mut counter = SnowflakeCounter::new();
    let r = Snowflake::new_unique_at(epoch, U10::new(2).unwrap(), &mut counter, &first, &at(1_000_000_100));
    assert_eq!(r.unwrap_err(), SnowflakeError::EpochInFuture);
    assert_eq!(counter.advance(), 0);
}

#[test]
fn new_unique_at_makes_the_snowflake_of_the_second_reading() {
    let epoch = at(1_000_000_000);
    let mut counter = SnowflakeCounter::new();
    counter.advance();
    let s = Snowflake::new_unique_at(epoch, U10::new(6).unwrap(), &mut counter, &at(1_000_000_000), &at(1_000_000_250))
        .unwrap();
    assert_eq!(s.as_i64(), (250 << 22) | (6 << 12) | 1);
    assert_eq!(s.counter(), 1);
    assert_eq!(counter.advance(), 2);
}

#[test]
fn new_unique_at_advances_the_counter_on_a_timestamp_out_of_range() {
    let epoch = at(1_000_000_000);
    let mut counter = SnowflakeCounter::new();
    let r = Snowflake::new_unique_at(epoch, U10::new(6).unwrap(), &mut counter, &at(1_000_000_000), &at(1_000_000_000));
    assert_eq!(r.unwrap_err(), SnowflakeError::TimestampOutOfRange);
    assert_eq!(counter.advance(), 1);
}

#[test]
fn consecutive_snowflakes_have_distinct_counters() {
    let epoch = at(1_000_000_000);
    let now = at(1_000_000_001);
    let mut counter = SnowflakeCounter::new();
    let mut seen = vec![false; 0x1000];
    let mut last: Option<u16> = None;
    for _ in 0..0x1000 {
        let s = Snowflake::new_unique_at(epoch, U10::new(1).unwrap(), &mut counter, &now, &now).unwrap();
        let c = s.counter();
        if let Some(l) = last {
            assert_eq!(c, (l + 1) % 0x1000);
        }
        assert!(!seen[c as usize]);
        seen[c as usize] = true;
        last = Some(c);
    }
}

#[test]
fn check_epoch_compares_seconds_then_nanoseconds() {
    let epoch = UtcTime::new(1_000_000_000, 5).unwrap();
    assert_eq!(Snowflake::check_epoch(&epoch, &UtcTime::new(1_000_000_000, 4).unwrap()), Err(SnowflakeError::EpochInFuture));
    assert_eq!(Snowflake::check_epoch(&epoch, &UtcTime::new(1_000_000_000, 5).unwrap()), Ok(()));
    assert_eq!(Snowflake::check_epoch(&epoch, &UtcTime::new(1_000_000_001, 0).unwrap()), Ok(()));
}
