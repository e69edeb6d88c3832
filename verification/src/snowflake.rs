//! Snowflake identifiers: 64-bit ids that pack a timestamp relative to an epoch, the id of
//! the machine that made them, and a counter.
//!
//! The layout of a value, from the most significant bit down: one unused sign bit, the
//! timestamp in 41 bits, 10 bits for the machine id and the counter in 12 bits. The
//! machine id is shifted into place as a 16-bit number, so only its four lowest bits
//! reach the value: machine ids that agree modulo 16 (1 and 17, say) make values that
//! differ only in their timestamp and counter.
use vstd::prelude::*;

use crate::U10;
use crate::utc::{later_than, representable, UtcTime};

verus! {

const TIMESTAMP_BITS: usize = 41;
const SNOWFLAKE_COUNTER_BITS: usize = 12;
const SNOWFLAKE_COUNTER_MAX: u16 = 0xFFF;
const MACHINE_ID_MASK: i64 = 0x3F_F000;

/// The first timestamp (relative to the epoch) that no longer fits in the timestamp bits.
pub const TIMESTAMP_LIMIT: i64 = 0x200_0000_0000;

/// Why a snowflake could not be made.
#[derive(Clone, Copy, Debug, PartialEq, Eq)]
pub enum SnowflakeError {
    /// The epoch lies after the current time.
    EpochInFuture,
    /// The snowflake's timestamp is out of range.
    TimestampOutOfRange,
}

/// The timestamp field of a snowflake value: its bits below the sign bit, shifted past the
/// machine id and the counter.
pub open spec fn timestamp_of(value: i64) -> int {
    (value as int % 0x8000_0000_0000_0000) / 0x40_0000
}

/// The machine id field of a snowflake value.
pub open spec fn machine_id_of(value: i64) -> int {
    (value as int / 0x1000) % 0x400
}

/// The counter field of a snowflake value.
pub open spec fn counter_of(value: i64) -> int {
    value as int % 0x1000
}

/// The value of a snowflake made at `timestamp` (relative to the epoch) by `machine_id`
/// with `counter`. The machine id is shifted as a 16-bit number, so only its four lowest
/// bits reach the value.
pub open spec fn composed(timestamp: int, machine_id: int, counter: int) -> int {
    timestamp * 0x40_0000 + (machine_id % 16) * 0x1000 + counter
}

/// The counter value that follows `c`: it counts up to `0xFFF` and then starts again at 0.
pub open spec fn next_counter(c: u16) -> u16 {
    if c == 0xFFF { 0 } else { (c + 1) as u16 }
}

/// Whether `(epoch, value)` describes a snowflake whose epoch and whose moment of making
/// can both be represented as `time::UtcDateTime`.
pub open spec fn valid_parts(epoch: i64, value: i64) -> bool {
    representable(epoch as int) && representable(epoch + timestamp_of(value))
}

/// A snowflake id, together with the epoch (a Unix timestamp in seconds) that its
/// timestamp counts from.
#[derive(Debug)]
pub struct Snowflake {
    epoch_ms: i64,
    value: i64,
}

impl View for Snowflake {
    /// The epoch and the 64-bit value.
    type V = (i64, i64);

    closed spec fn view(&self) -> (i64, i64) {
        (self.epoch_ms, self.value)
    }
}

/// The source of snowflake counter values. Each value is handed out once, and after
/// `0xFFF` the count starts again at 0.
#[derive(Debug)]
pub struct SnowflakeCounter {
    current: u16,
}

impl View for SnowflakeCounter {
    /// The value that the next call of `advance` hands out.
    type V = u16;

    closed spec fn view(&self) -> u16 {
        self.current
    }
}

impl SnowflakeCounter {
    #[verifier::type_invariant]
    closed spec fn below_limit(self) -> bool {
        self.current <= 0xFFF
    }

    /// A counter that starts at 0.
    pub fn new() -> (r: Self)
        ensures
            r@ == 0,
    {
        SnowflakeCounter { current: 0 }
    }

    /// Hands out the current value and moves on to the next one.
    pub fn advance(&mut self) -> (r: u16)
        ensures
            r == old(self)@,
            r <= 0xFFF,
            final(self)@ == next_counter(old(self)@),
    {
        proof { use_type_invariant(&*self); }
        let c = self.current;
        self.current = if c == SNOWFLAKE_COUNTER_MAX { 0 } else { c + 1 };
        c
    }
}

/// The counter value after `n` advances from `c`.
pub open spec fn counter_after(c: u16, n: nat) -> u16
    decreases n,
{
    if n == 0 {
        c
    } else {
        next_counter(counter_after(c, (n - 1) as nat))
    }
}

/// Advancing the counter `n` times moves it on by `n` modulo `0x1000`: it never leaves
/// `0..=0xFFF`, and a value comes round again only after `0x1000` advances.
pub proof fn lemma_counter_after(c: u16, n: nat)
    requires
        c <= 0xFFF,
    ensures
        counter_after(c, n) as int == (c + n) % 0x1000,
    decreases n,
{
    if n > 0 {
        lemma_counter_after(c, (n - 1) as nat);
    }
}

/// The counter moves on by one modulo `0x1000` at each advance: the snowflake made after
/// another (with no other made between them) holds the next counter value.
pub proof fn lemma_next_counter(c: u16)
    requires
        c <= 0xFFF,
    ensures
        next_counter(c) as int == (c + 1) % 0x1000,
        next_counter(c) <= 0xFFF,
{
}

/// Up to `0x1000` consecutive snowflakes get pairwise different counter values: the values
/// that a counter hands out after `i` and after `j` advances differ whenever `i` and `j`
/// are less than `0x1000` apart.
pub proof fn lemma_counters_distinct(c: u16, i: nat, j: nat)
    requires
        c <= 0xFFF,
        i < j < i + 0x1000,
    ensures
        counter_after(c, i) != counter_after(c, j),
{
    lemma_counter_after(c, i);
    lemma_counter_after(c, j);
}

/// The fields of a snowflake value read back what it was composed from: the timestamp
/// and the counter always, and the machine id modulo 16 (only its four lowest bits reach
/// the value), so the machine id itself whenever it is below 16.
pub proof fn lemma_fields_of_composed(timestamp: int, machine_id: int, counter: int)
    requires
        0 < timestamp < TIMESTAMP_LIMIT,
        0 <= machine_id <= 0x3FF,
        0 <= counter <= 0xFFF,
    ensures
        0 <= composed(timestamp, machine_id, counter) < 0x8000_0000_0000_0000,
        timestamp_of(composed(timestamp, machine_id, counter) as i64) == timestamp,
        machine_id_of(composed(timestamp, machine_id, counter) as i64) == machine_id % 16,
        counter_of(composed(timestamp, machine_id, counter) as i64) == counter,
        machine_id < 16 ==> machine_id_of(composed(timestamp, machine_id, counter) as i64) == machine_id,
{
    let v = composed(timestamp, machine_id, counter);
    let m = machine_id % 16;
    assert(0 <= v < 0x8000_0000_0000_0000 && v / 0x40_0000 == timestamp && (v / 0x1000) % 0x400 == m
        && v % 0x1000 == counter) by (nonlinear_arith)
        requires
            v == timestamp * 0x40_0000 + m * 0x1000 + counter,
            0 < timestamp < 0x200_0000_0000,
            0 <= m < 16,
            0 <= counter <= 0xFFF,
    ;
}

/// Snowflakes made at different timestamps, or with different counter values, or by
/// machines whose ids differ modulo 16, have different values.
pub proof fn lemma_composed_injective(t1: int, m1: int, c1: int, t2: int, m2: int, c2: int)
    requires
        0 < t1 < TIMESTAMP_LIMIT,
        0 < t2 < TIMESTAMP_LIMIT,
        0 <= m1 <= 0x3FF,
        0 <= m2 <= 0x3FF,
        0 <= c1 <= 0xFFF,
        0 <= c2 <= 0xFFF,
        t1 != t2 || c1 != c2 || m1 % 16 != m2 % 16,
    ensures
        composed(t1, m1, c1) != composed(t2, m2, c2),
{
    lemma_fields_of_composed(t1, m1, c1);
    lemma_fields_of_composed(t2, m2, c2);
}

/// A snowflake made at `now` counts as valid when rebuilt from its value and epoch: its
/// moment of making is `now`, which can be represented, and its fields read back the
/// timestamp, the counter and (modulo 16) the machine id it was made from.
pub proof fn lemma_made_snowflake_rebuilds(epoch: i64, now: i64, machine_id: int, counter: int)
    requires
        representable(epoch as int),
        representable(now as int),
        0 < now - epoch < TIMESTAMP_LIMIT,
        0 <= machine_id <= 0x3FF,
        0 <= counter <= 0xFFF,
    ensures
        valid_parts(epoch, composed(now - epoch, machine_id, counter) as i64),
        epoch + timestamp_of(composed(now - epoch, machine_id, counter) as i64) == now,
        machine_id_of(composed(now - epoch, machine_id, counter) as i64) == machine_id % 16,
        counter_of(composed(now - epoch, machine_id, counter) as i64) == counter,
{
    lemma_fields_of_composed(now - epoch, machine_id, counter);
}

proof fn lemma_composed_bits(timestamp: i64, machine_id: u16, counter: u16)
    requires
        0 < timestamp < TIMESTAMP_LIMIT,
        machine_id <= 0x3FF,
        counter <= 0xFFF,
    ensures
        ((timestamp << 22i64) | ((machine_id << 12u16) as i64) | (counter as i64)) as int
            == composed(timestamp as int, machine_id as int, counter as int),
{
    assert(((timestamp << 22i64) | ((machine_id << 12u16) as i64) | (counter as i64))
        == timestamp * 0x40_0000 + (machine_id % 16) * 0x1000 + counter) by (bit_vector)
        requires
            0 < timestamp < 0x200_0000_0000,
            machine_id <= 0x3FF,
            counter <= 0xFFF,
    ;
}

proof fn lemma_timestamp_bits(value: i64)
    ensures
        ((value & 0x7FFF_FFFF_FFFF_FFFFi64) >> 22i64) as int == timestamp_of(value),
        0 <= timestamp_of(value) < TIMESTAMP_LIMIT,
{
    let w = value & 0x7FFF_FFFF_FFFF_FFFFi64;
    assert(w >= 0 && (w >> 22i64) == w / 0x40_0000 && w / 0x40_0000 < 0x200_0000_0000) by (bit_vector)
        requires
            w == value & 0x7FFF_FFFF_FFFF_FFFFi64,
    ;
    if value >= 0 {
        assert(w == value) by (bit_vector)
            requires
                w == value & 0x7FFF_FFFF_FFFF_FFFFi64,
                value >= 0,
        ;
    } else {
        assert(w == value + 0x7FFF_FFFF_FFFF_FFFFi64 + 1) by (bit_vector)
            requires
                w == value & 0x7FFF_FFFF_FFFF_FFFFi64,
                value < 0,
        ;
    }
}

proof fn lemma_machine_id_bits(value: i64)
    ensures
        ((value & 0x3F_F000i64) >> 12i64) as int == machine_id_of(value),
        0 <= machine_id_of(value) <= 0x3FF,
{
    assert((value & 0x3F_F000i64) >> 12i64 == (value / 4096) % 1024) by (bit_vector);
}

proof fn lemma_counter_bits(value: i64)
    ensures
        (value & 0xFFFi64) as int == counter_of(value),
        0 <= counter_of(value) <= 0xFFF,
{
    assert(value & 0xFFFi64 == value % 4096) by (bit_vector);
}

impl Snowflake {
    #[verifier::type_invariant]
    closed spec fn well_formed(self) -> bool {
        valid_parts(self.epoch_ms, self.value)
    }

    /// Makes a new snowflake for `machine_id`, with `epoch` as its epoch and the next value
    /// of `counter`. Only the four lowest bits of the machine id reach the value.
    ///
    /// The clock is read twice: once for `check_epoch`, before the counter is advanced, and
    /// once after it, for `from_clock`, which makes the snowflake with the counter value
    /// handed out; this is what `new_unique_at` makes with those two readings. Whatever the
    /// clock reads: `EpochInFuture` leaves the counter as it was, any other result advances
    /// it, and a snowflake holds the epoch, the counter value handed out and (modulo 16)
    /// the machine id.
    pub fn new_unique(epoch: UtcTime, machine_id: U10, counter: &mut SnowflakeCounter) -> (r: Result<Self, SnowflakeError>)
        ensures
            r matches Err(SnowflakeError::EpochInFuture) ==> final(counter)@ == old(counter)@,
            !(r matches Err(SnowflakeError::EpochInFuture)) ==> final(counter)@ == next_counter(old(counter)@),
            r matches Ok(s) ==> {
                &&& s@.0 == epoch@.0
                &&& valid_parts(s@.0, s@.1)
                &&& 0 < timestamp_of(s@.1) < TIMESTAMP_LIMIT
                &&& s@.1 == composed(timestamp_of(s@.1), machine_id@ as int, old(counter)@ as int)
                &&& counter_of(s@.1) == old(counter)@
                &&& machine_id_of(s@.1) == machine_id@ % 16
            },
    {
        match Self::check_epoch(&epoch, &UtcTime::now()) {
            Err(e) => Err(e),
            Ok(()) => {
                let c = counter.advance();
                Self::from_clock(&epoch, machine_id, c, &UtcTime::now())
            },
        }
    }

    /// The check that comes before a snowflake is made, when the clock reads `now`:
    /// `EpochInFuture` where the epoch lies after `now`.
    pub fn check_epoch(epoch: &UtcTime, now: &UtcTime) -> (r: Result<(), SnowflakeError>)
        ensures
            later_than(epoch@.0 as int, epoch@.1 as int, now@.0 as int, now@.1 as int)
                <==> r == Err::<(), SnowflakeError>(SnowflakeError::EpochInFuture),
            r is Err ==> r == Err::<(), SnowflakeError>(SnowflakeError::EpochInFuture),
    {
        if epoch.is_after(now) {
            Err(SnowflakeError::EpochInFuture)
        } else {
            Ok(())
        }
    }

    /// Makes the snowflake that `new_unique` makes when the clock reads `first` at the check
    /// and `second` at the making: `EpochInFuture` where the epoch lies after `first`, and
    /// the counter is then left as it was; otherwise the counter advances and the result is
    /// that of `from_clock` at `second` with the value that the counter handed out.
    pub fn new_unique_at(
        epoch: UtcTime,
        machine_id: U10,
        counter: &mut SnowflakeCounter,
        first: &UtcTime,
        second: &UtcTime,
    ) -> (r: Result<Self, SnowflakeError>)
        ensures
            later_than(epoch@.0 as int, epoch@.1 as int, first@.0 as int, first@.1 as int)
                <==> r == Err::<Self, SnowflakeError>(SnowflakeError::EpochInFuture),
            later_than(epoch@.0 as int, epoch@.1 as int, first@.0 as int, first@.1 as int)
                ==> final(counter)@ == old(counter)@,
            !later_than(epoch@.0 as int, epoch@.1 as int, first@.0 as int, first@.1 as int) ==> {
                &&& final(counter)@ == next_counter(old(counter)@)
                &&& r is Ok <==> 0 < second@.0 - epoch@.0 < TIMESTAMP_LIMIT
                &&& r is Err ==> r == Err::<Self, SnowflakeError>(SnowflakeError::TimestampOutOfRange)
            },
            r matches Ok(s) ==> {
                &&& s@ == (epoch@.0, composed(second@.0 - epoch@.0, machine_id@ as int, old(counter)@ as int) as i64)
                &&& s@.1 as int == (second@.0 - epoch@.0) * 0x40_0000 + (machine_id@ % 16) * 0x1000 + old(counter)@
                &&& valid_parts(s@.0, s@.1)
                &&& timestamp_of(s@.1) == second@.0 - epoch@.0
                &&& machine_id_of(s@.1) == machine_id@ % 16
                &&& counter_of(s@.1) == old(counter)@
            },
    {
        match Self::check_epoch(&epoch, first) {
            Err(e) => Err(e),
            Ok(()) => {
                let c = counter.advance();
                Self::from_clock(&epoch, machine_id, c, second)
            },
        }
    }

    /// Makes the snowflake that `new_unique` makes when the clock reads `now` and the
    /// counter hands out `counter`: its timestamp is `now` less the epoch, in seconds.
    /// `TimestampOutOfRange` where that timestamp is not positive or does not fit in 41 bits.
    pub fn from_clock(epoch: &UtcTime, machine_id: U10, counter: u16, now: &UtcTime) -> (r: Result<Self, SnowflakeError>)
        requires
            counter <= 0xFFF,
        ensures
            r is Ok <==> 0 < now@.0 - epoch@.0 < TIMESTAMP_LIMIT,
            r is Err ==> r == Err::<Self, SnowflakeError>(SnowflakeError::TimestampOutOfRange),
            r matches Ok(s) ==> {
                &&& s@ == (epoch@.0, composed(now@.0 - epoch@.0, machine_id@ as int, counter as int) as i64)
                &&& s@.1 as int == (now@.0 - epoch@.0) * 0x40_0000 + (machine_id@ % 16) * 0x1000 + counter
                &&& valid_parts(s@.0, s@.1)
                &&& timestamp_of(s@.1) == now@.0 - epoch@.0
                &&& machine_id_of(s@.1) == machine_id@ % 16
                &&& counter_of(s@.1) == counter
            },
    {
        let epoch_ms = epoch.unix_timestamp();
        let now_s = now.unix_timestamp();
        let timestamp = now_s - epoch_ms;
        assert(1i64 << 41usize == 0x200_0000_0000i64) by (bit_vector);
        if timestamp <= 0 || timestamp >= 1i64 << TIMESTAMP_BITS {
            Err(SnowflakeError::TimestampOutOfRange)
        } else {
            let m = machine_id.as_u16();
            proof { lemma_fields_of_composed(timestamp as int, m as int, counter as int); }
            Ok(Self::make_raw(epoch_ms, machine_id, counter, timestamp))
        }
    }

    fn make_raw(epoch_ms: i64, machine_id: U10, counter: u16, timestamp: i64) -> (r: Self)
        requires
            representable(epoch_ms as int),
            representable(epoch_ms + timestamp),
            0 < timestamp < TIMESTAMP_LIMIT,
            counter <= 0xFFF,
        ensures
            r@ == (epoch_ms, composed(timestamp as int, machine_id@ as int, counter as int) as i64),
    {
        let m = machine_id.as_u16();
        proof { lemma_composed_bits(timestamp, m, counter); }
        let mut value = timestamp << (U10::BITS + SNOWFLAKE_COUNTER_BITS);
        value = value | ((m << SNOWFLAKE_COUNTER_BITS) as i64);
        value = value | (counter as i64);
        let ghost v = composed(timestamp as int, m as int, counter as int);
        assert(0 <= v < 0x8000_0000_0000_0000) by (nonlinear_arith)
            requires v == timestamp * 0x40_0000 + (m % 16) * 0x1000 + counter, 0 < timestamp < 0x200_0000_0000, counter <= 0xFFF;
        assert(timestamp_of(v as i64) == timestamp);
        Self { epoch_ms, value }
    }

    /// Rebuilds the snowflake `value` with `epoch` as its epoch, checking its timestamp
    /// against the clock's reading: as `from_i64_at` with the current time as `now`.
    pub fn from_i64(epoch: UtcTime, value: i64) -> (r: Result<Self, SnowflakeError>)
        ensures
            r matches Ok(s) ==> s@ == (epoch@.0, value),
            r is Ok ==> valid_parts(epoch@.0, value),
            r matches Err(SnowflakeError::TimestampOutOfRange) ==> !valid_parts(epoch@.0, value),
            valid_parts(epoch@.0, value) ==> (r is Ok || r == Err::<Self, SnowflakeError>(SnowflakeError::EpochInFuture)),
    {
        let now = UtcTime::now();
        Self::from_i64_at(&epoch, value, &now)
    }

    /// Rebuilds the snowflake `value` with `epoch` as its epoch when the clock reads `now`:
    /// `EpochInFuture` where the epoch lies after `now`, `TimestampOutOfRange` where the
    /// moment that the value's timestamp denotes cannot be represented.
    pub fn from_i64_at(epoch: &UtcTime, value: i64, now: &UtcTime) -> (r: Result<Self, SnowflakeError>)
        ensures
            later_than(epoch@.0 as int, epoch@.1 as int, now@.0 as int, now@.1 as int)
                ==> r == Err::<Self, SnowflakeError>(SnowflakeError::EpochInFuture),
            !later_than(epoch@.0 as int, epoch@.1 as int, now@.0 as int, now@.1 as int) ==> {
                &&& r is Ok <==> valid_parts(epoch@.0, value)
                &&& r is Err ==> r == Err::<Self, SnowflakeError>(SnowflakeError::TimestampOutOfRange)
            },
            r matches Ok(s) ==> s@ == (epoch@.0, value),
    {
        if epoch.is_after(now) {
            Err(SnowflakeError::EpochInFuture)
        } else {
            let epoch_ms = epoch.unix_timestamp();
            match validate_parts(epoch_ms, value) {
                Ok(()) => Ok(Self { value, epoch_ms }),
                Err(e) => Err(e),
            }
        }
    }

    /// The 64-bit value of this snowflake.
    pub fn as_i64(&self) -> (r: i64)
        ensures
            r == self@.1,
    {
        self.value
    }

    /// The timestamp field: seconds from the epoch to the moment the snowflake was made.
    fn timestamp_ms(&self) -> (r: i64)
        ensures
            r as int == timestamp_of(self@.1),
            0 <= r < TIMESTAMP_LIMIT,
    {
        proof { lemma_timestamp_bits(self.value); }
        (self.value & i64::MAX) >> (U10::BITS + SNOWFLAKE_COUNTER_BITS)
    }

    /// The time at which this snowflake was generated
    pub fn timestamp(&self) -> (r: UtcTime)
        ensures
            r@ == ((self@.0 + timestamp_of(self@.1)) as i64, 0u32),
    {
        proof { use_type_invariant(self); }
        match UtcTime::from_unix_timestamp(self.timestamp_ms() + self.epoch_ms) {
            Some(t) => t,
            None => vstd::pervasive::unreached(),
        }
    }

    /// The machine id field of this snowflake.
    pub fn machine_id(&self) -> (r: U10)
        ensures
            r@ as int == machine_id_of(self@.1),
    {
        proof { lemma_machine_id_bits(self.value); }
        match U10::new(((self.value & MACHINE_ID_MASK) >> SNOWFLAKE_COUNTER_BITS) as u16) {
            Some(m) => m,
            None => vstd::pervasive::unreached(),
        }
    }

    /// The counter field of this snowflake.
    pub fn counter(&self) -> (r: u16)
        ensures
            r as int == counter_of(self@.1),
    {
        proof { lemma_counter_bits(self.value); }
        (self.value & SNOWFLAKE_COUNTER_MAX as i64) as u16
    }

    /// The epoch that this snowflake's timestamp counts from.
    pub fn epoch(&self) -> (r: UtcTime)
        ensures
            r@ == (self@.0, 0u32),
    {
        proof { use_type_invariant(self); }
        match UtcTime::from_unix_timestamp(self.epoch_ms) {
            Some(t) => t,
            None => vstd::pervasive::unreached(),
        }
    }
}

impl Clone for Snowflake {
    fn clone(&self) -> (r: Self)
        ensures
            r@ == self@,
    {
        proof { use_type_invariant(self); }
        Snowflake { epoch_ms: self.epoch_ms, value: self.value }
    }
}

/// Checks that the moment which the timestamp field of `value` denotes, counted from
/// `epoch_ms`, can be represented.
fn validate_parts(epoch_ms: i64, value: i64) -> (r: Result<(), SnowflakeError>)
    requires
        representable(epoch_ms as int),
    ensures
        r is Ok <==> valid_parts(epoch_ms, value),
        r is Err ==> r == Err::<(), SnowflakeError>(SnowflakeError::TimestampOutOfRange),
{
    proof { lemma_timestamp_bits(value); }
    let timestamp_ms = (value & i64::MAX) >> (U10::BITS + SNOWFLAKE_COUNTER_BITS);
    let sum = match timestamp_ms.checked_add(epoch_ms) {
        Some(sum) => sum,
        None => return Err(SnowflakeError::TimestampOutOfRange),
    };
    match UtcTime::from_unix_timestamp(sum) {
        Some(_) => Ok(()),
        None => Err(SnowflakeError::TimestampOutOfRange),
    }
}

} // verus!
