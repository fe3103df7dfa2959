//! Day, week and month arithmetic on stamps.

use vstd::prelude::*;
use crate::clock::{civil_date, civil_of};
use crate::state::ReportPeriod;
use vstd::arithmetic::div_mod::{
    lemma_div_multiples_vanish, lemma_fundamental_div_mod, lemma_fundamental_div_mod_converse,
    lemma_mod_multiples_basic, lemma_mod_multiples_vanish,
};

verus! {

/// The stamps the interface reckons with: within 2^40 seconds (about 34,000
/// years) of the epoch.
pub open spec fn moment_ok(t: i64) -> bool {
    -0x100_0000_0000 <= t <= 0x100_0000_0000
}

/// Midnight of the day of stamp `t`.
pub open spec fn day_start(t: int) -> int {
    (t / 86400) * 86400
}

/// Days since Monday of the day of stamp `t` (1970-01-01 was a Thursday).
pub open spec fn weekday_from_monday(t: int) -> int {
    ((t / 86400) + 3) % 7
}

/// Midnight of the Monday of the week of stamp `t`.
pub open spec fn week_start(t: int) -> int {
    day_start(t) - weekday_from_monday(t) * 86400
}

/// Whether `y` is a leap year of the proleptic Gregorian calendar.
pub open spec fn is_leap(y: int) -> bool {
    let a = if y < 0 { -y } else { y };
    a % 4 == 0 && (a % 100 != 0 || a % 400 == 0)
}

/// Number of days in month `m` (1 to 12) of year `y`.
pub open spec fn days_in_month(y: int, m: int) -> int {
    if m == 2 {
        if is_leap(y) { 29 } else { 28 }
    } else if m == 4 || m == 6 || m == 9 || m == 11 {
        30
    } else {
        31
    }
}

/// First and last day (as midnight stamps) that a report period covers on
/// the day of stamp `t`: the day itself; Monday to Sunday of its week; or
/// the first to the last day of its month.
pub open spec fn report_range(p: ReportPeriod, t: int) -> (int, int) {
    let today = day_start(t);
    match p {
        ReportPeriod::Daily => (today, today),
        ReportPeriod::Weekly => (week_start(t), week_start(t) + 6 * 86400),
        ReportPeriod::Monthly => {
            let c = civil_date(today as i64);
            let first = today - (c.2 - 1) * 86400;
            (first, first + (days_in_month(c.0 as int, c.1 as int) - 1) * 86400)
        },
    }
}

/// A shift that moves every reckoned stamp to a positive value and is a
/// whole number of weeks.
spec fn shift() -> int {
    1_209_600_000_000
}

/// Midnight of the day of `t`, and the days since Monday.
pub fn day_and_weekday(t: i64) -> (r: (i64, i64))
    requires
        moment_ok(t),
    ensures
        r.0 == day_start(t as int),
        r.1 == weekday_from_monday(t as int),
        0 <= r.1 < 7,
        r.0 <= t < r.0 + 86400,
{
    let s: u64 = (t + 1_209_600_000_000i64) as u64;
    let q: u64 = s / 86400;
    let rem: u64 = s % 86400;
    let days: i64 = (q as i64) - 14_000_000i64;
    proof {
        assert(s as int == q as int * 86400 + rem as int);
        assert(t as int == days as int * 86400 + rem as int) by (nonlinear_arith)
            requires
                s as int == q as int * 86400 + rem as int,
                s as int == t as int + 1_209_600_000_000,
                days as int == q as int - 14_000_000,
        ;
        lemma_fundamental_div_mod_converse(t as int, 86400, days as int, rem as int);
        lemma_mod_multiples_vanish(2_000_000, days as int + 3, 7);
        assert(q as int + 3 == 7 * 2_000_000 + (days as int + 3));
    }
    let wd: i64 = ((q + 3) % 7) as i64;
    proof {
        assert(days as int * 86400 <= t as int);
        assert(t as int - days as int * 86400 < 86400);
    }
    (days * 86400, wd)
}

/// Going back `back` whole days from a midnight and then forward `ahead`
/// whole days lands on midnights.
proof fn lemma_midnights(midnight: int, back: int, ahead: int)
    requires
        midnight % 86400 == 0,
    ensures
        (midnight - back * 86400) % 86400 == 0,
        (midnight - back * 86400 + ahead * 86400) % 86400 == 0,
{
    let q = midnight / 86400;
    lemma_fundamental_div_mod(midnight, 86400);
    lemma_mod_multiples_basic(q - back, 86400);
    lemma_mod_multiples_basic(q - back + ahead, 86400);
    assert(midnight - back * 86400 == (q - back) * 86400) by (nonlinear_arith)
        requires
            midnight == 86400 * q,
    ;
    assert(midnight - back * 86400 + ahead * 86400 == (q - back + ahead) * 86400) by (nonlinear_arith)
        requires
            midnight == 86400 * q,
    ;
}

/// Weeks start on Monday: the week of any stamp begins on a Monday's
/// midnight, at most six days before the stamp's own day, and a day begins
/// at midnight no later than the stamp and lasts a day.
pub proof fn law_week_starts_monday(t: int)
    ensures
        weekday_from_monday(week_start(t)) == 0,
        week_start(t) <= day_start(t) <= week_start(t) + 6 * 86400,
        day_start(t) <= t < day_start(t) + 86400,
        week_start(t) % 86400 == 0,
{
    let q = t / 86400;
    let wd = (q + 3) % 7;
    lemma_fundamental_div_mod(t, 86400);
    lemma_fundamental_div_mod(q + 3, 7);
    assert(week_start(t) == (q - wd) * 86400) by (nonlinear_arith)
        requires
            week_start(t) == q * 86400 - wd * 86400,
    ;
    lemma_div_multiples_vanish(q - wd, 86400);
    lemma_mod_multiples_basic(q - wd, 86400);
    assert((q - wd) + 3 == 7 * ((q + 3) / 7));
    lemma_mod_multiples_basic((q + 3) / 7, 7);
    assert(day_start(t) == q * 86400);
}

/// Whether `y` is a leap year.
pub fn leap_year(y: i32) -> (b: bool)
    ensures
        b == is_leap(y as int),
{
    let a: u64 = if y < 0 { (-(y as i64)) as u64 } else { y as u64 };
    a % 4 == 0 && (a % 100 != 0 || a % 400 == 0)
}

/// Days in month `m` of year `y`.
pub fn month_length(y: i32, m: u32) -> (n: i64)
    ensures
        n == days_in_month(y as int, m as int),
        28 <= n <= 31,
{
    if m == 2 {
        if leap_year(y) { 29 } else { 28 }
    } else if m == 4 || m == 6 || m == 9 || m == 11 {
        30
    } else {
        31
    }
}

/// The first and last day a report period covers on the day of `t`.
pub fn period_range(p: ReportPeriod, t: i64) -> (r: (i64, i64))
    requires
        moment_ok(t),
    ensures
        r.0 == report_range(p, t as int).0,
        r.1 == report_range(p, t as int).1,
        -0x200_0000_0000 <= r.0 <= r.1 <= 0x200_0000_0000,
        r.0 <= day_start(t as int) <= r.1,
        r.0 % 86400 == 0 && r.1 % 86400 == 0,
{
    let (today, wd) = day_and_weekday(t);
    match p {
        ReportPeriod::Daily => (today, today),
        ReportPeriod::Weekly => {
            let monday = today - wd * 86400;
            proof {
                lemma_midnights(today as int, wd as int, 6);
            }
            (monday, monday + 6 * 86400)
        },
        ReportPeriod::Monthly => {
            let (y, m, d) = civil_of(today);
            let first = today - ((d as i64) - 1) * 86400;
            let len = month_length(y, m);
            proof {
                lemma_midnights(today as int, d - 1, len - 1);
            }
            (first, first + (len - 1) * 86400)
        },
    }
}

} // verus!
