//! The civil (proleptic Gregorian) calendar model: leap years, month
//! lengths, weekdays and week-of-month ordinals, all over plain integers.
//!
//! Calendar dates are identified by their day number, counted as in the
//! proleptic Gregorian calendar with day 1 being January 1 of year 1; the
//! Unix epoch, January 1 of 1970, is day 719163.  The weekday of a day
//! number is pure arithmetic: day 1 is a Monday.

use vstd::prelude::*;

verus! {

/// Instants this library works with, as Unix seconds: the years 0 through
/// 9999, with margin on either side so that every RFC 3339 text denotes an
/// in-range instant and the forward search horizon stays in range.
pub open spec fn valid_instant(ts: int) -> bool {
    -62_200_000_000 <= ts <= 253_700_000_000
}

/// Gregorian leap-year rule.
pub open spec fn is_leap_year(y: int) -> bool {
    y % 4 == 0 && (y % 100 != 0 || y % 400 == 0)
}

/// Days in a month of a given year.
pub open spec fn days_in_month(y: int, m: int) -> int {
    if m == 2 {
        if is_leap_year(y) {
            29
        } else {
            28
        }
    } else if m == 4 || m == 6 || m == 9 || m == 11 {
        30
    } else {
        31
    }
}

/// Weekday of a day number, 0 = Sunday through 6 = Saturday.  Day 1
/// (January 1, year 1) is a Monday, so this is plain arithmetic modulo 7.
pub open spec fn weekday_of_day(n: int) -> int {
    n % 7
}

/// The 1-based week ordinal of a day of the month: days 1-7 are week 1,
/// 8-14 week 2, and so on.
pub open spec fn week_of_month(day: int) -> int {
    (day - 1) / 7 + 1
}

/// Month lengths, executably.
pub fn days_in_month_exec(y: i32, m: u8) -> (r: u8)
    requires
        1 <= m <= 12,
    ensures
        r as int == days_in_month(y as int, m as int),
{
    if m == 2 {
        if (y % 4 == 0 && y % 100 != 0) || y % 400 == 0 {
            proof {
                assert(is_leap_year(y as int) == ((y % 4 == 0 && y % 100 != 0) || y % 400
                    == 0));
            }
            29
        } else {
            28
        }
    } else if m == 4 || m == 6 || m == 9 || m == 11 {
        30
    } else {
        31
    }
}

/// Computes the weekday of a day number.
pub fn weekday_of_day_num(n: i64) -> (r: u8)
    requires
        -1000000 <= n <= 10000000,
    ensures
        r as int == weekday_of_day(n as int),
        r < 7,
{
    let k = n + 7000000;
    let m = k % 7;
    proof {
        vstd::arithmetic::div_mod::lemma_mod_multiples_vanish(1000000, n as int, 7);
        assert(7 * 1000000 + n == k as int);
    }
    m as u8
}

/// Computes the week-of-month ordinal of a day of the month.
pub fn week_of_month_exec(day: u8) -> (r: u8)
    requires
        1 <= day <= 31,
    ensures
        r as int == week_of_month(day as int),
        1 <= r <= 5,
{
    (day - 1) / 7 + 1
}

} // verus!
