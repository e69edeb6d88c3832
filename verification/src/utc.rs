//! Instants in UTC, kept as the plain values that the rest of the library reads:
//! a Unix timestamp in whole seconds and the nanoseconds within that second.
use vstd::prelude::*;

verus! {

/// The Unix timestamp of `-9999-01-01 00:00:00 UTC`, the earliest second that the
/// `time` crate can represent (without its `large-dates` feature).
pub const UNIX_TIMESTAMP_MIN: i64 = -377_705_116_800;

/// The Unix timestamp of `9999-12-31 23:59:59 UTC`, the latest second that the
/// `time` crate can represent (without its `large-dates` feature).
pub const UNIX_TIMESTAMP_MAX: i64 = 253_402_300_799;

/// Nanoseconds in one second.
pub const NANOS_PER_SECOND: u32 = 1_000_000_000;

/// Whether `ts` is a Unix timestamp that a `time::UtcDateTime` can hold.
pub open spec fn representable(ts: int) -> bool {
    UNIX_TIMESTAMP_MIN <= ts <= UNIX_TIMESTAMP_MAX
}

/// Whether the instant `(ts, nanos)` comes strictly after `(other_ts, other_nanos)`.
pub open spec fn later_than(ts: int, nanos: int, other_ts: int, other_nanos: int) -> bool {
    ts > other_ts || (ts == other_ts && nanos > other_nanos)
}

/// An instant in UTC, to the nanosecond, within the range of `time::UtcDateTime`.
#[derive(Clone, Copy, Debug)]
pub struct UtcTime {
    unix_timestamp: i64,
    nanosecond: u32,
}

impl View for UtcTime {
    /// The Unix timestamp in seconds, and the nanoseconds within that second.
    type V = (i64, u32);

    closed spec fn view(&self) -> (i64, u32) {
        (self.unix_timestamp, self.nanosecond)
    }
}

/// Reads the system clock through `time::UtcDateTime::now`.
///
/// Trusted: the `time` crate keeps every `UtcDateTime` within `UtcDateTime::MIN` and
/// `UtcDateTime::MAX` and its nanosecond below one billion; which instant comes back is
/// left open, as it depends on the clock.
#[verifier::external_body]
fn utc_date_time_now() -> (r: UtcTime)
    ensures
        representable(r@.0 as int),
        r@.1 < NANOS_PER_SECOND,
{
    let now = time::UtcDateTime::now();
    UtcTime { unix_timestamp: now.unix_timestamp(), nanosecond: now.nanosecond() }
}

/// Calls `time::UtcDateTime::from_unix_timestamp`.
///
/// Trusted: the `time` crate succeeds exactly for timestamps between the Unix timestamps
/// of `UtcDateTime::MIN` and `UtcDateTime::MAX`, and the instant it returns has that
/// timestamp and no nanoseconds.
#[verifier::external_body]
fn utc_date_time_from_unix_timestamp(timestamp: i64) -> (r: Option<UtcTime>)
    ensures
        r is Some <==> representable(timestamp as int),
        r matches Some(t) ==> t@ == (timestamp, 0u32),
{
    time::UtcDateTime::from_unix_timestamp(timestamp).ok().map(
        |t: time::UtcDateTime| UtcTime { unix_timestamp: t.unix_timestamp(), nanosecond: t.nanosecond() },
    )
}

impl UtcTime {
    #[verifier::type_invariant]
    closed spec fn in_range(self) -> bool {
        representable(self.unix_timestamp as int) && self.nanosecond < NANOS_PER_SECOND
    }

    /// The current instant, as the system clock reports it.
    pub fn now() -> (r: UtcTime)
        ensures
            representable(r@.0 as int),
            r@.1 < NANOS_PER_SECOND,
    {
        utc_date_time_now()
    }

    /// The instant `timestamp` seconds after the Unix epoch; `None` where `time::UtcDateTime`
    /// cannot represent it.
    pub fn from_unix_timestamp(timestamp: i64) -> (r: Option<UtcTime>)
        ensures
            r is Some <==> representable(timestamp as int),
            r matches Some(t) ==> t@ == (timestamp, 0u32),
    {
        utc_date_time_from_unix_timestamp(timestamp)
    }

    /// The instant with the given Unix timestamp and nanoseconds; `None` where the
    /// timestamp is out of range or the nanoseconds make up a whole second or more.
    pub fn new(unix_timestamp: i64, nanosecond: u32) -> (r: Option<UtcTime>)
        ensures
            r is Some <==> (representable(unix_timestamp as int) && nanosecond < NANOS_PER_SECOND),
            r matches Some(t) ==> t@ == (unix_timestamp, nanosecond),
    {
        if UNIX_TIMESTAMP_MIN <= unix_timestamp && unix_timestamp <= UNIX_TIMESTAMP_MAX
            && nanosecond < NANOS_PER_SECOND {
            Some(UtcTime { unix_timestamp, nanosecond })
        } else {
            None
        }
    }

    /// The instant `millis` milliseconds after the Unix epoch; `None` where `time::UtcDateTime`
    /// cannot represent it.
    pub fn from_unix_millis(millis: u64) -> (r: Option<UtcTime>)
        ensures
            r is Some <==> representable(millis as int / 1000),
            r matches Some(t) ==> t@ == ((millis / 1000) as i64, ((millis % 1000) * 1_000_000) as u32),
    {
        let seconds = millis / 1000;
        if seconds > UNIX_TIMESTAMP_MAX as u64 {
            return None;
        }
        UtcTime::new(seconds as i64, (millis % 1000) as u32 * 1_000_000)
    }

    /// The Unix timestamp, in whole seconds.
    pub fn unix_timestamp(&self) -> (r: i64)
        ensures
            r == self@.0,
            representable(r as int),
    {
        proof { use_type_invariant(self); }
        self.unix_timestamp
    }

    /// The nanoseconds within the second.
    pub fn nanosecond(&self) -> (r: u32)
        ensures
            r == self@.1,
            r < NANOS_PER_SECOND,
    {
        proof { use_type_invariant(self); }
        self.nanosecond
    }

    /// Whether this instant comes strictly after `other`.
    pub fn is_after(&self, other: &UtcTime) -> (r: bool)
        ensures
            r == later_than(self@.0 as int, self@.1 as int, other@.0 as int, other@.1 as int),
    {
        self.unix_timestamp > other.unix_timestamp || (self.unix_timestamp == other.unix_timestamp
            && self.nanosecond > other.nanosecond)
    }
}

} // verus!
