//! Proleptic-Gregorian civil time over the years 0000 through 9999:
//! the range a four-digit RFC 3339 year can carry.  Day counts are
//! "absolute days", counted from 0000-01-01; the epoch offset is
//! computed, never hard-coded.

use vstd::prelude::*;

verus! {

/// A civil date and time of day, field by field.
#[derive(Clone, Copy, Debug, PartialEq, Eq, Structural)]
pub struct Civil {
    pub year: i64,
    pub month: i64,
    pub day: i64,
    pub hour: i64,
    pub minute: i64,
    pub second: i64,
}

pub open spec fn is_leap_year(y: int) -> bool {
    (y % 4 == 0 && y % 100 != 0) || y % 400 == 0
}

pub open spec fn days_in_year(y: int) -> int {
    if is_leap_year(y) {
        366
    } else {
        365
    }
}

/// Days in the years 0, 1, ..., y-1.
pub open spec fn days_before_year(y: int) -> int
    decreases y,
{
    if y <= 0 {
        0
    } else {
        days_before_year(y - 1) + days_in_year(y - 1)
    }
}

pub open spec fn days_in_month(y: int, m: int) -> int {
    if m == 2 {
        if is_leap_year(y) {
            29
        } else {
            28
        }
    } else if m == 4 || m == 6 || m == 9 || m == 11 {
        30
    } else {
        31
    }
}

/// Days in the months 1, ..., m-1 of year y.
pub open spec fn days_before_month(y: int, m: int) -> int
    decreases m,
{
    if m <= 1 {
        0
    } else {
        days_before_month(y, m - 1) + days_in_month(y, m - 1)
    }
}

/// Validity of the date and time-of-day fields.
pub open spec fn civil_wf(c: Civil) -> bool {
    &&& 0 <= c.year <= 9999
    &&& 1 <= c.month <= 12
    &&& 1 <= c.day <= days_in_month(c.year as int, c.month as int)
    &&& 0 <= c.hour < 24
    &&& 0 <= c.minute < 60
    &&& 0 <= c.second < 60
}

/// The absolute day a civil date falls on.
pub open spec fn aday_of(c: Civil) -> int {
    days_before_year(c.year as int) + days_before_month(c.year as int, c.month as int) + c.day - 1
}

/// The second of the day a civil time names.
pub open spec fn sod_of(c: Civil) -> int {
    c.hour * 3600 + c.minute * 60 + c.second
}

pub proof fn lemma_days_before_year_bounds(y: int)
    requires
        0 <= y,
    ensures
        365 * y <= days_before_year(y) <= 366 * y,
    decreases y,
{
    if y > 0 {
        lemma_days_before_year_bounds(y - 1);
    }
}

pub proof fn lemma_days_before_year_mono(a: int, b: int)
    requires
        0 <= a <= b,
    ensures
        days_before_year(a) <= days_before_year(b),
    decreases b,
{
    if a < b {
        lemma_days_before_year_mono(a, b - 1);
    }
}

/// The twelve months exactly fill the year.
pub proof fn lemma_months_fill_year(y: int)
    ensures
        days_before_month(y, 13) == days_in_year(y),
{
    reveal_with_fuel(days_before_month, 13);
}

pub proof fn lemma_days_before_month_mono(y: int, a: int, b: int)
    requires
        1 <= a <= b,
    ensures
        days_before_month(y, a) <= days_before_month(y, b),
    decreases b,
{
    if a < b {
        lemma_days_before_month_mono(y, a, b - 1);
    }
}

/// A valid date's absolute day stays below the day count of the year
/// after it.
pub proof fn lemma_aday_in_year(c: Civil)
    requires
        civil_wf(c),
    ensures
        days_before_year(c.year as int) <= aday_of(c) < days_before_year(c.year as int + 1),
{
    lemma_days_before_month_mono(c.year as int, 1, c.month as int);
    lemma_days_before_month_mono(c.year as int, c.month as int + 1, 13);
    lemma_months_fill_year(c.year as int);
    assert(days_before_month(c.year as int, c.month as int + 1) == days_before_month(
        c.year as int,
        c.month as int,
    ) + days_in_month(c.year as int, c.month as int));
    assert(days_before_year(c.year as int + 1) == days_before_year(c.year as int) + days_in_year(
        c.year as int,
    ));
}

fn is_leap_year_exec(y: i64) -> (r: bool)
    requires
        0 <= y,
    ensures
        r == is_leap_year(y as int),
{
    (y % 4 == 0 && y % 100 != 0) || y % 400 == 0
}

fn days_in_year_exec(y: i64) -> (r: i64)
    requires
        0 <= y,
    ensures
        r == days_in_year(y as int),
{
    if is_leap_year_exec(y) {
        366
    } else {
        365
    }
}

pub fn days_in_month_exec(y: i64, m: i64) -> (r: i64)
    requires
        0 <= y,
    ensures
        r == days_in_month(y as int, m as int),
{
    if m == 2 {
        if is_leap_year_exec(y) {
            29
        } else {
            28
        }
    } else if m == 4 || m == 6 || m == 9 || m == 11 {
        30
    } else {
        31
    }
}

/// Sums the year lengths below `y`.
pub fn days_before_year_exec(y: i64) -> (r: i64)
    requires
        0 <= y <= 10000,
    ensures
        r == days_before_year(y as int),
{
    let mut acc: i64 = 0;
    let mut i: i64 = 0;
    while i < y
        invariant
            0 <= i <= y <= 10000,
            acc == days_before_year(i as int),
            365 * i <= acc <= 366 * i,
        decreases y - i,
    {
        acc = acc + days_in_year_exec(i);
        i = i + 1;
    }
    acc
}

fn days_before_month_exec(y: i64, m: i64) -> (r: i64)
    requires
        0 <= y,
        1 <= m <= 13,
    ensures
        r == days_before_month(y as int, m as int),
{
    let mut acc: i64 = 0;
    let mut i: i64 = 1;
    while i < m
        invariant
            1 <= i <= m <= 13,
            0 <= y,
            acc == days_before_month(y as int, i as int),
            acc <= 31 * i,
        decreases m - i,
    {
        acc = acc + days_in_month_exec(y, i);
        i = i + 1;
    }
    acc
}

/// The absolute day of a valid civil date.
pub fn civil_to_aday(c: &Civil) -> (r: i64)
    requires
        civil_wf(*c),
    ensures
        r == aday_of(*c),
        0 <= r < days_before_year(10000),
{
    proof {
        lemma_aday_in_year(*c);
        lemma_days_before_year_mono(c.year as int + 1, 10000);
        lemma_days_before_year_bounds(c.year as int);
    }
    days_before_year_exec(c.year) + days_before_month_exec(c.year, c.month) + c.day - 1
}

/// The civil date a non-negative absolute day falls on; `None` exactly
/// when the day lies at or beyond year 10000.
pub fn aday_to_date(aday: i64) -> (r: Option<(i64, i64, i64)>)
    requires
        0 <= aday,
    ensures
        r is Some <==> aday < days_before_year(10000),
        r matches Some(t) ==> {
            &&& 0 <= t.0 <= 9999
            &&& 1 <= t.1 <= 12
            &&& 1 <= t.2 <= days_in_month(t.0 as int, t.1 as int)
            &&& days_before_year(t.0 as int) + days_before_month(t.0 as int, t.1 as int) + t.2 - 1
                == aday
        },
{
    let bound = days_before_year_exec(10000);
    if aday >= bound {
        return None;
    }
    let mut y: i64 = 0;
    let mut rem: i64 = aday;
    while rem >= days_in_year_exec(y)
        invariant
            0 <= y <= 9999,
            0 <= rem,
            days_before_year(y as int) + rem == aday,
            aday < days_before_year(10000),
        decreases 9999 - y,
    {
        proof {
            if y == 9999 {
                assert(days_before_year(10000) == days_before_year(9999) + days_in_year(9999));
                assert(false);
            }
        }
        rem = rem - days_in_year_exec(y);
        y = y + 1;
    }
    let mut m: i64 = 1;
    proof {
        lemma_months_fill_year(y as int);
    }
    while rem >= days_in_month_exec(y, m)
        invariant
            1 <= m <= 12,
            0 <= y <= 9999,
            0 <= rem,
            days_before_month(y as int, m as int) + rem < days_in_year(y as int),
            days_before_year(y as int) + days_before_month(y as int, m as int) + rem == aday,
        decreases 12 - m,
    {
        proof {
            if m == 12 {
                lemma_months_fill_year(y as int);
                assert(days_before_month(y as int, 13) == days_before_month(y as int, 12)
                    + days_in_month(y as int, 12));
                assert(false);
            }
        }
        rem = rem - days_in_month_exec(y, m);
        m = m + 1;
    }
    Some((y, m, rem + 1))
}

/// Splits a second-of-day into hour, minute and second fields.
pub fn sod_to_hms(sod: i64) -> (r: (i64, i64, i64))
    requires
        0 <= sod < 86400,
    ensures
        0 <= r.0 < 24,
        0 <= r.1 < 60,
        0 <= r.2 < 60,
        r.0 * 3600 + r.1 * 60 + r.2 == sod,
{
    let h = sod / 3600;
    let rest = sod % 3600;
    let mi = rest / 60;
    let s = rest % 60;
    (h, mi, s)
}

} // verus!
