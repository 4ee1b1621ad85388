//! Calendar dates of file timestamps.
use vstd::prelude::*;

verus! {

/// A day of the proleptic Gregorian calendar.
#[derive(Clone, Copy, Debug, PartialEq, Eq, Structural)]
pub struct CivilDate {
    pub year: i32,
    /// 1 to 12.
    pub month: u32,
    /// 1 to 31.
    pub day: u32,
}

/// The UTC date, as (year, month, day), of the instant `secs` seconds after
/// 1970-01-01T00:00:00Z.
pub uninterp spec fn utc_date_of(secs: int) -> (int, int, int);

/// Timestamps this far from the epoch, in seconds, always have a date.
pub const DATE_RANGE_SECS: i64 = 0x100_0000_0000;

/// Relies on chrono's `DateTime::<Utc>::from_timestamp` and on
/// `Datelike::{year, month, day}`: the UTC calendar date of a count of
/// seconds since the epoch. chrono gives `None` only for counts whose day
/// lies outside its range of about 262,000 years either side of year 0;
/// the month is 1 to 12 and the day 1 to 31.
#[verifier::external_body]
pub(crate) fn utc_date(secs: i64) -> (r: Option<CivilDate>)
    ensures
        -DATE_RANGE_SECS <= secs <= DATE_RANGE_SECS ==> r is Some,
        r is Some ==> {
            let d = r->0;
            &&& (d.year as int, d.month as int, d.day as int) == utc_date_of(secs as int)
            &&& 1 <= d.month <= 12
            &&& 1 <= d.day <= 31
        },
{
    match chrono::DateTime::<chrono::Utc>::from_timestamp(secs, 0) {
        Some(t) => Some(
            CivilDate {
                year: chrono::Datelike::year(&t),
                month: chrono::Datelike::month(&t),
                day: chrono::Datelike::day(&t),
            },
        ),
        None => None,
    }
}

/// Whole seconds since the epoch, rounded down, of an instant `secs` seconds
/// and `nanos` nanoseconds after the epoch, or before it when
/// `before_epoch`.
pub open spec fn floor_seconds(before_epoch: bool, secs: nat, nanos: nat) -> int {
    if !before_epoch {
        secs as int
    } else if nanos == 0 {
        -secs
    } else {
        -secs - 1
    }
}

/// [`floor_seconds`] as an `i64`; `None` where it does not fit.
pub fn epoch_seconds(before_epoch: bool, secs: u64, nanos: u32) -> (r: Option<i64>)
    ensures
        r is Some <==> i64::MIN <= floor_seconds(before_epoch, secs as nat, nanos as nat)
            <= i64::MAX,
        r is Some ==> r->0 == floor_seconds(before_epoch, secs as nat, nanos as nat),
{
    if !before_epoch {
        if secs <= i64::MAX as u64 {
            Some(secs as i64)
        } else {
            None
        }
    } else if nanos == 0 {
        if secs <= 0x8000_0000_0000_0000u64 {
            Some((0i128 - secs as i128) as i64)
        } else {
            None
        }
    } else {
        if secs < 0x8000_0000_0000_0000u64 {
            Some((0i128 - secs as i128 - 1) as i64)
        } else {
            None
        }
    }
}

} // verus!
