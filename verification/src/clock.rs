//! The wall clock.
//!
//! An opportunity is stamped with the time of its detection. The clock is
//! read as a distance from the Unix epoch, on either side of it, and the
//! instant is made from a signed number of nanoseconds, so that no reading
//! of the clock can stop the detector.

use crate::types::Timestamp;
use vstd::prelude::*;

verus! {

/// What the system clock reads: a number of nanoseconds after the Unix
/// epoch or, on a clock set to an earlier time, before it.
#[derive(Debug, Clone, Copy, PartialEq, Eq, Structural)]
pub enum ClockReading {
    SinceEpoch(u128),
    BeforeEpoch(u128),
}

/// Nanoseconds in one second.
pub const NANOS_PER_SECOND: i64 = 1_000_000_000;

/// The signed nanoseconds since the epoch that a reading stands for,
/// kept within 64 bits: a reading further from the epoch (before the year
/// 1677 or after 2262) counts as the nearest end of that range.
pub open spec fn reading_nanos(reading: ClockReading) -> i64 {
    match reading {
        ClockReading::SinceEpoch(n) => if n > i64::MAX {
            i64::MAX
        } else {
            n as i64
        },
        ClockReading::BeforeEpoch(n) => if n > i64::MAX {
            i64::MIN
        } else {
            (-(n as int)) as i64
        },
    }
}

/// The instant that lies `nanos` nanoseconds from the epoch: whole
/// seconds, rounded towards the past, and the nanoseconds past that
/// second.
pub open spec fn instant_at(nanos: i64) -> Timestamp {
    Timestamp {
        secs: (nanos as int / NANOS_PER_SECOND as int) as i64,
        nanos: (nanos as int % NANOS_PER_SECOND as int) as u32,
    }
}

/// Reads the system clock with `SystemTime::now` and measures it from the
/// Unix epoch with `duration_since`, which reports a clock set before the
/// epoch as an error that carries the distance. Nothing is promised about
/// the reading.
#[verifier::external_body]
fn read_clock() -> (reading: ClockReading) {
    match std::time::SystemTime::now().duration_since(std::time::UNIX_EPOCH) {
        Ok(elapsed) => ClockReading::SinceEpoch(elapsed.as_nanos()),
        Err(early) => ClockReading::BeforeEpoch(early.duration().as_nanos()),
    }
}

/// `chrono::DateTime::from_timestamp_nanos` makes the UTC instant of a
/// signed number of nanoseconds since the epoch; every 64-bit number is
/// in its range. Its `timestamp` is the number of whole seconds, rounded
/// towards the past, and its `timestamp_subsec_nanos` the nanoseconds
/// past that second.
#[verifier::external_body]
fn utc_instant(nanos: i64) -> (instant: Timestamp)
    ensures
        instant == instant_at(nanos),
{
    let instant = chrono::DateTime::from_timestamp_nanos(nanos);
    Timestamp { secs: instant.timestamp(), nanos: instant.timestamp_subsec_nanos() }
}

/// The signed nanoseconds since the epoch of a clock reading.
pub fn nanos_since_epoch(reading: ClockReading) -> (nanos: i64)
    ensures
        nanos == reading_nanos(reading),
{
    match reading {
        ClockReading::SinceEpoch(n) => if n > i64::MAX as u128 {
            i64::MAX
        } else {
            n as i64
        },
        ClockReading::BeforeEpoch(n) => if n > i64::MAX as u128 {
            i64::MIN
        } else {
            -(n as i64)
        },
    }
}

impl Timestamp {
    /// The nanoseconds lie within one second.
    pub open spec fn is_normal(self) -> bool {
        self.nanos < NANOS_PER_SECOND
    }

    /// The instant that lies `nanos` nanoseconds from the Unix epoch.
    pub fn from_nanos(nanos: i64) -> (instant: Timestamp)
        ensures
            instant == instant_at(nanos),
            instant.is_normal(),
            instant.secs * NANOS_PER_SECOND + instant.nanos == nanos,
    {
        utc_instant(nanos)
    }

    /// The instant that a clock reading stands for.
    pub fn from_reading(reading: ClockReading) -> (instant: Timestamp)
        ensures
            instant == instant_at(reading_nanos(reading)),
            instant.is_normal(),
    {
        Timestamp::from_nanos(nanos_since_epoch(reading))
    }

    /// The current time in UTC. It depends on the system clock, so all
    /// that holds of every outcome is that it is the instant of some
    /// reading. It never fails, whatever the clock is set to.
    pub fn now() -> (instant: Timestamp)
        ensures
            exists|reading: ClockReading| instant == #[trigger] instant_at(reading_nanos(reading)),
            instant.is_normal(),
    {
        Timestamp::from_reading(read_clock())
    }
}

} // verus!
