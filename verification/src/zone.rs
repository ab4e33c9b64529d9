//! Conversions between instants and local calendar dates in a named time
//! zone, and the calendar table itself, supplied by the `chrono` and
//! `chrono-tz` crates behind trusted wrappers.
//!
//! What the zone database computes is opaque to the proofs: each conversion
//! is given a name (`local_stamp`, `civil_of_day`, `instant_of_day`,
//! `day_num_of_civil`, `rfc3339_instant`), a function of its arguments
//! alone, and the wrappers state only facts the sources plainly give: the
//! returned dates are valid civil dates, and every offset in the compiled
//! zone data lies within sixteen hours of UTC (the widest entries are the
//! pre-standard local mean times of zones that later crossed the date
//! line, at under 15 h 57 m either way).  A zone name the database does
//! not know acts as UTC.

use vstd::prelude::*;
use chrono::{Datelike, TimeZone, Timelike};
use crate::calendar::{days_in_month, valid_instant};

verus! {

/// The local calendar day number and the local second of that day of a UTC
/// instant in a named zone.
pub uninterp spec fn local_stamp(ts: int, tz: Seq<char>) -> (int, int);

/// The civil date (year, month, day) of a day number.
pub uninterp spec fn civil_of_day(n: int) -> (int, int, int);

/// The UTC instant of a local day number and second of day in a named zone;
/// a time in a daylight-saving gap or fold resolves to the earliest valid
/// instant.
pub uninterp spec fn instant_of_day(n: int, secs: int, tz: Seq<char>) -> int;

/// The day number of a civil date.
pub uninterp spec fn day_num_of_civil(y: int, m: int, d: int) -> int;

/// The instant an RFC 3339 text denotes, if any.
pub uninterp spec fn rfc3339_instant(s: Seq<char>) -> Option<int>;

/// The local calendar position of an instant: its local day number, the
/// civil fields of that day, and the local second of day.
pub struct LocalStamp {
    pub day_num: i64,
    pub year: i32,
    pub month: u8,
    pub day: u8,
    pub secs: u32,
}

/// Relies on chrono's time-zone conversion (`DateTime::with_timezone` with a
/// `chrono_tz::Tz`): the local civil date, day number and second of day of a
/// UTC instant.  The offset bound states that every offset in the zone data
/// lies within sixteen hours of UTC.
#[verifier::external_body]
pub fn local_stamp_of(ts: i64, tz_name: &str) -> (r: LocalStamp)
    requires
        valid_instant(ts as int),
    ensures
        (r.day_num as int, r.secs as int) == local_stamp(ts as int, tz_name@),
        (r.year as int, r.month as int, r.day as int) == civil_of_day(r.day_num as int),
        1 <= r.month <= 12,
        1 <= r.day as int <= days_in_month(r.year as int, r.month as int),
        r.secs < 86400,
        -1100 <= r.day_num <= 3656000,
        -57600 <= (r.day_num as int - 719163) * 86400 + r.secs as int - ts as int <= 57600,
{
    let tz: chrono_tz::Tz = tz_name.parse().unwrap_or(chrono_tz::UTC);
    let utc = chrono::DateTime::from_timestamp(ts, 0).unwrap();
    let loc = utc.with_timezone(&tz);
    let date = loc.date_naive();
    LocalStamp {
        day_num: date.num_days_from_ce() as i64,
        year: date.year(),
        month: date.month() as u8,
        day: date.day() as u8,
        secs: loc.time().num_seconds_from_midnight(),
    }
}

/// Relies on chrono's `NaiveDate::from_num_days_from_ce_opt`: the civil date
/// of a day number in the proleptic Gregorian calendar.
#[verifier::external_body]
pub fn civil_of_day_num(n: i64) -> (r: (i32, u8, u8))
    requires
        -1000000 <= n <= 10000000,
    ensures
        (r.0 as int, r.1 as int, r.2 as int) == civil_of_day(n as int),
        1 <= r.1 <= 12,
        1 <= r.2 as int <= days_in_month(r.0 as int, r.1 as int),
{
    let date = chrono::NaiveDate::from_num_days_from_ce_opt(n as i32).unwrap();
    (date.year(), date.month() as u8, date.day() as u8)
}

/// Relies on chrono's `TimeZone::from_local_datetime`: the UTC instant of a
/// local day number and second of day; a daylight-saving gap or fold
/// resolves to the earliest valid instant, a nonexistent local time to its
/// UTC reading.  The offset bound states that every offset in the zone data
/// lies within sixteen hours of UTC, the UTC fallback included.
#[verifier::external_body]
pub fn instant_of_day_num(n: i64, secs: u32, tz_name: &str) -> (r: i64)
    requires
        -1000000 <= n <= 10000000,
        secs < 86400,
    ensures
        r as int == instant_of_day(n as int, secs as int, tz_name@),
        -57600 <= ((n as int - 719163) * 86400 + secs as int) - r as int <= 57600,
{
    let tz: chrono_tz::Tz = tz_name.parse().unwrap_or(chrono_tz::UTC);
    let date = chrono::NaiveDate::from_num_days_from_ce_opt(n as i32).unwrap();
    let time = chrono::NaiveTime::from_num_seconds_from_midnight_opt(secs, 0).unwrap();
    let ndt = date.and_time(time);
    match tz.from_local_datetime(&ndt).earliest() {
        Some(dt) => dt.timestamp(),
        None => ndt.and_utc().timestamp(),
    }
}

/// Relies on chrono's `NaiveDate::from_ymd_opt` and `num_days_from_ce`: the
/// day number of a valid civil date.
#[verifier::external_body]
pub fn day_num_of_civil_exec(y: i32, m: u8, d: u8) -> (r: i64)
    requires
        0 <= y <= 9999,
        1 <= m <= 12,
        1 <= d as int <= days_in_month(y as int, m as int),
    ensures
        r as int == day_num_of_civil(y as int, m as int, d as int),
        civil_of_day(r as int) == (y as int, m as int, d as int),
        -366 <= r <= 3652059,
{
    let date = chrono::NaiveDate::from_ymd_opt(y, m as u32, d as u32).unwrap();
    date.num_days_from_ce() as i64
}

/// Relies on chrono's `DateTime::parse_from_rfc3339`: the instant an
/// RFC 3339 text denotes, as Unix seconds, a function of the text alone.
#[verifier::external_body]
pub fn parse_rfc3339(s: &str) -> (r: Option<i64>)
    ensures
        match r {
            Option::Some(v) => rfc3339_instant(s@) == Option::Some(v as int) && valid_instant(
                v as int,
            ),
            Option::None => rfc3339_instant(s@) is None,
        },
{
    chrono::DateTime::parse_from_rfc3339(s).ok().map(|dt| dt.timestamp())
}

} // verus!
