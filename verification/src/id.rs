use vstd::prelude::*;

use crate::errors::ApiError;
use chrono::NaiveDate;

verus! {

/// The years a calendar date may have.
pub const MIN_DATE_YEAR: i32 = -262143;
pub const MAX_DATE_YEAR: i32 = 262142;

pub open spec fn is_leap_year(y: int) -> bool {
    (y % 4 == 0 && y % 100 != 0) || y % 400 == 0
}

pub open spec fn days_in_month(y: int, m: int) -> int {
    if m == 2 {
        if is_leap_year(y) {
            29
        } else {
            28
        }
    } else if m == 4 || m == 6 || m == 9 || m == 11 {
        30
    } else {
        31
    }
}

/// Whether `year-month-day` is a day of the proleptic Gregorian calendar
/// within the supported years.
pub open spec fn is_valid_date(year: i32, month: u32, day: u32) -> bool {
    &&& MIN_DATE_YEAR <= year <= MAX_DATE_YEAR
    &&& 1 <= month <= 12
    &&& 1 <= day <= days_in_month(year as int, month as int)
}

/// Days in a year of the proleptic Gregorian calendar.
pub open spec fn days_in_year(y: int) -> int {
    if is_leap_year(y) {
        366
    } else {
        365
    }
}

pub open spec fn years_from_epoch(y: int) -> nat {
    if y >= 1970 {
        (y - 1970) as nat
    } else {
        (1970 - y) as nat
    }
}

/// Days from 1970-01-01 to January 1st of year `y` (negative before 1970).
pub open spec fn days_before_year(y: int) -> int
    decreases years_from_epoch(y),
{
    if y == 1970 {
        0
    } else if y > 1970 {
        days_before_year(y - 1) + days_in_year(y - 1)
    } else {
        days_before_year(y + 1) - days_in_year(y)
    }
}

/// Days from January 1st to the first day of month `m` of year `y`.
pub open spec fn days_before_month(y: int, m: int) -> int
    decreases m,
{
    if m <= 1 {
        0
    } else {
        days_before_month(y, m - 1) + days_in_month(y, m - 1)
    }
}

/// Days from 1970-01-01 to `year-month-day` (negative before it).
pub open spec fn days_from_unix_epoch(year: i32, month: u32, day: u32) -> int {
    days_before_year(year as int) + days_before_month(year as int, month as int) + day - 1
}

/// Milliseconds in a day.
pub const MILLIS_PER_DAY: i64 = 86_400_000;

/// `chrono::DateTime::timestamp_millis` of midnight UTC at the start of
/// `year-month-day`. The date is made by `NaiveDate::from_ymd_opt` (whose
/// documentation gives `None` exactly when the day does not exist, the
/// month or day is invalid, or the year is outside the supported range), the
/// midnight by `and_hms_opt(0, 0, 0)` (never `None`: midnight is a valid
/// time) and the zone by `and_utc`; these only bring the plain date into the
/// form `timestamp_millis` reads. The milliseconds of a UTC midnight are the
/// days since 1970-01-01 times the length of a day.
#[verifier::external_body]
fn midnight_utc_millis(year: i32, month: u32, day: u32) -> (r: Option<i64>)
    ensures
        r is Some <==> is_valid_date(year, month, day),
        r matches Some(ms) ==> ms == days_from_unix_epoch(year, month, day) * MILLIS_PER_DAY,
{
    let date = NaiveDate::from_ymd_opt(year, month, day)?;
    let midnight = date.and_hms_opt(0, 0, 0)?;
    Some(midnight.and_utc().timestamp_millis())
}

pub open spec fn is_internal(e: ApiError, text: Seq<char>) -> bool {
    e matches ApiError::Internal(m) && m@ == text
}

/// The epoch of the id generator: midnight (UTC) at the start of the given
/// day, in milliseconds since the Unix epoch.
pub fn base_time(year: i32, month: u32, day: u32) -> (r: Result<i64, ApiError>)
    ensures
        r is Ok <==> is_valid_date(year, month, day),
        r matches Ok(ms) ==> ms == days_from_unix_epoch(year, month, day) * MILLIS_PER_DAY,
        r matches Err(e) ==> is_internal(e, "Invalid base date"@),
{
    match midnight_utc_millis(year, month, day) {
        None => Err(ApiError::Internal(String::from_str("Invalid base date"))),
        Some(ms) => Ok(ms),
    }
}

} // verus!
