//! The day count: time as the theory of the orbits measures it.

use vstd::prelude::*;
use crate::error::EphemerisError;
use crate::quantity::{Quantity, UNITS_PER_ONE};

verus! {

/// Nanoseconds in a day of 86 400 seconds.
pub const NANOS_PER_DAY: i128 = 86_400_000_000_000;

/// The reference epoch, 2000-01-01T00:00:00Z, in nanoseconds after the Unix
/// epoch: 10 957 days.
pub const EPOCH_UNIX_NANOS: i128 = 946_684_800_000_000_000;

/// The Julian date of the Unix epoch, 2 440 587.5, in units of
/// `1 / UNITS_PER_ONE` days.
pub const UNIX_EPOCH_JULIAN_UNITS: i64 = 2_440_587_500_000_000_000;

/// The Julian date of the reference epoch, 2 451 544.5, in units of
/// `1 / UNITS_PER_ONE` days.
pub const EPOCH_JULIAN_UNITS: i64 = 2_451_544_500_000_000_000;

/// A continuous day count: the time elapsed since the reference epoch, kept
/// to the nanosecond. The day count in days is `nanos / NANOS_PER_DAY`, a
/// rational number that is negative before the epoch.
#[derive(Clone, Copy, Debug, PartialEq, Eq, Structural)]
pub struct DayCount {
    pub nanos: i128,
}

/// The whole days in a span of nanoseconds, rounded towards the past, and
/// the nanoseconds that are left over.
pub fn split_days(nanos: i128) -> (split: (i128, u64))
    ensures
        split.0 == nanos / NANOS_PER_DAY,
        split.1 == nanos % NANOS_PER_DAY,
        nanos == split.0 * NANOS_PER_DAY + split.1,
        split.1 < NANOS_PER_DAY,
{
    let quotient = nanos / NANOS_PER_DAY;
    let remainder = nanos % NANOS_PER_DAY;
    if remainder < 0 {
        (quotient - 1, (remainder + NANOS_PER_DAY) as u64)
    } else {
        (quotient, remainder as u64)
    }
}

/// The numerator of the Julian date, in days, of an instant `unix_nanos`
/// nanoseconds after the Unix epoch: `unix_nanos / NANOS_PER_DAY +
/// 2 440 587.5` days.
pub open spec fn julian_of_unix(unix_nanos: int) -> int {
    UNIX_EPOCH_JULIAN_UNITS * NANOS_PER_DAY + UNITS_PER_ONE * unix_nanos
}

/// The numerator of the Julian date, in days, of an instant `nanos`
/// nanoseconds after the reference epoch: `nanos / NANOS_PER_DAY +
/// 2 451 544.5` days.
pub open spec fn julian_of_day_count(nanos: int) -> int {
    EPOCH_JULIAN_UNITS * NANOS_PER_DAY + UNITS_PER_ONE * nanos
}

/// The Julian date, in days, of an instant given in nanoseconds after the
/// Unix epoch, without rounding.
pub fn jd_from_unix(unix_nanos: i128) -> (jd: Quantity)
    ensures
        jd@ == julian_of_unix(unix_nanos as int),
        jd.wf(),
{
    Quantity::linear(UNIX_EPOCH_JULIAN_UNITS, 1_000_000_000_000, DayCount { nanos: unix_nanos })
}

/// The two ways to a Julian date agree: through the day count of an instant,
/// and from its Unix time directly.
pub proof fn julian_dates_agree(unix_nanos: int)
    ensures
        julian_of_day_count(unix_nanos - EPOCH_UNIX_NANOS) == julian_of_unix(unix_nanos),
{
}

impl DayCount {
    /// The day count a whole number of days after the reference epoch.
    pub fn from_days(days: i64) -> (d: DayCount)
        ensures
            d.nanos == days * NANOS_PER_DAY,
    {
        DayCount { nanos: days as i128 * NANOS_PER_DAY }
    }

    /// The day count of an instant given in nanoseconds after the Unix
    /// epoch, negative for an instant before it. There is none only where
    /// the difference to the reference epoch leaves the range of `i128`.
    pub fn from_unix_nanos(unix_nanos: i128) -> (d: Option<DayCount>)
        ensures
            match d {
                Some(d) => d.nanos == unix_nanos - EPOCH_UNIX_NANOS,
                None => unix_nanos - EPOCH_UNIX_NANOS < i128::MIN,
            },
    {
        match unix_nanos.checked_sub(EPOCH_UNIX_NANOS) {
            Some(nanos) => Some(DayCount { nanos }),
            None => None,
        }
    }

    /// The day count of a reading of the clock: the nanoseconds that have
    /// passed since the Unix epoch. A reading that no signed 128-bit count
    /// of nanoseconds holds is refused as `ClockUnavailable`.
    pub fn from_clock(since_unix_epoch: u128) -> (d: Result<DayCount, EphemerisError>)
        ensures
            match d {
                Ok(d) => since_unix_epoch <= i128::MAX && d.nanos == since_unix_epoch
                    - EPOCH_UNIX_NANOS,
                Err(e) => since_unix_epoch > i128::MAX && e == EphemerisError::ClockUnavailable,
            },
    {
        if since_unix_epoch <= i128::MAX as u128 {
            Ok(DayCount { nanos: since_unix_epoch as i128 - EPOCH_UNIX_NANOS })
        } else {
            Err(EphemerisError::ClockUnavailable)
        }
    }

    /// The Julian date of the day count, in days, without rounding.
    pub fn julian_date(&self) -> (jd: Quantity)
        ensures
            jd@ == julian_of_day_count(self.nanos as int),
            jd.wf(),
    {
        Quantity::linear(EPOCH_JULIAN_UNITS, 1_000_000_000_000, *self)
    }

    /// The whole days of the count, rounded towards the past.
    pub fn whole_days(&self) -> (days: i128)
        ensures
            days == self.nanos / NANOS_PER_DAY,
    {
        split_days(self.nanos).0
    }

    /// The nanoseconds that have passed since the last whole day.
    pub fn nanos_of_day(&self) -> (nanos: u64)
        ensures
            nanos == self.nanos % NANOS_PER_DAY,
            nanos < NANOS_PER_DAY,
    {
        split_days(self.nanos).1
    }
}

} // verus!
