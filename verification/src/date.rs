//! Civil dates on the proleptic Gregorian calendar, for years 1 through 9999.
//!
//! A date is a plain `(year, month, day)` triple. The module links that triple
//! to a linear day count (`day_num`, day 1 being January 1 of year 1), which is
//! what the period calendar does its arithmetic on.

use vstd::arithmetic::div_mod::{
    lemma_div_is_ordered, lemma_div_is_ordered_by_denominator, lemma_fundamental_div_mod,
    lemma_fundamental_div_mod_converse, lemma_mod_division_less_than_divisor,
    lemma_mod_multiples_basic,
};
use vstd::prelude::*;

verus! {

/// A civil calendar date.
#[derive(Clone, Copy, PartialEq, Eq, Structural, Debug, Hash)]
pub struct Date {
    pub year: i32,
    pub month: u8,
    pub day: u8,
}

pub const MIN_YEAR: i32 = 1;

pub const MAX_YEAR: i32 = 9999;

/// `day_num` of December 31 of year 9999, the largest supported day number.
pub const MAX_DAY_NUMBER: i64 = 3652059;

/// Leap years of the Gregorian calendar.
pub open spec fn is_leap_year(y: int) -> bool {
    y % 4 == 0 && (y % 100 != 0 || y % 400 == 0)
}

/// Number of days in month `m` of year `y`, for `1 <= m <= 12`.
pub open spec fn days_in_month_of(y: int, m: int) -> int {
    if m == 2 {
        if is_leap_year(y) {
            29
        } else {
            28
        }
    } else if m == 4 || m == 6 || m == 9 || m == 11 {
        30
    } else {
        31
    }
}

/// Number of days of year `y` that lie strictly before month `m`;
/// meaningful for `1 <= m <= 13`, where `m == 13` gives the whole year.
pub open spec fn days_before_month(y: int, m: int) -> int {
    let base: int = if m <= 1 {
        0
    } else if m == 2 {
        31
    } else if m == 3 {
        59
    } else if m == 4 {
        90
    } else if m == 5 {
        120
    } else if m == 6 {
        151
    } else if m == 7 {
        181
    } else if m == 8 {
        212
    } else if m == 9 {
        243
    } else if m == 10 {
        273
    } else if m == 11 {
        304
    } else if m == 12 {
        334
    } else {
        365
    };
    if m >= 3 && is_leap_year(y) {
        base + 1
    } else {
        base
    }
}

/// Number of days in year `y`.
pub open spec fn days_in_year(y: int) -> int {
    if is_leap_year(y) {
        366
    } else {
        365
    }
}

/// Number of days that lie strictly before January 1 of year `y`,
/// counting from January 1 of year 1.
pub open spec fn days_before_year(y: int) -> int {
    365 * (y - 1) + (y - 1) / 4 - (y - 1) / 100 + (y - 1) / 400
}

/// The linear day number of a date: January 1 of year 1 is day 1.
pub open spec fn day_num(d: Date) -> int {
    days_before_year(d.year as int) + days_before_month(d.year as int, d.month as int) + d.day
}

impl Date {
    /// The triple denotes a real calendar day in the supported year range.
    pub open spec fn valid(self) -> bool {
        &&& MIN_YEAR <= self.year <= MAX_YEAR
        &&& 1 <= self.month <= 12
        &&& 1 <= self.day <= days_in_month_of(self.year as int, self.month as int)
    }
}

/// Quotients by a positive constant step down by exactly one when crossing a
/// multiple: `y / d` exceeds `(y - 1) / d` exactly on the multiples of `d`.
proof fn lemma_div_step(y: int, d: int)
    requires
        1 <= y,
        1 <= d,
    ensures
        y / d == (y - 1) / d + if y % d == 0 {
            1int
        } else {
            0int
        },
{
    let q = y / d;
    let r = y % d;
    lemma_fundamental_div_mod(y, d);
    lemma_mod_division_less_than_divisor(y, d);
    if r == 0 {
        assert(y - 1 == (q - 1) * d + (d - 1)) by (nonlinear_arith)
            requires
                y == d * q + r,
                r == 0,
        ;
        lemma_fundamental_div_mod_converse(y - 1, d, q - 1, d - 1);
    } else {
        assert(y - 1 == q * d + (r - 1)) by (nonlinear_arith)
            requires
                y == d * q + r,
        ;
        lemma_fundamental_div_mod_converse(y - 1, d, q, r - 1);
    }
}

/// `d` divides `m * d` exactly, so multiples of 400 are multiples of 100 and 4,
/// and multiples of 100 are multiples of 4.
proof fn lemma_mod_zero_factor(y: int, c: int, d: int)
    requires
        1 <= c,
        1 <= d,
        y % (c * d) == 0,
    ensures
        y % d == 0,
{
    assert(c * d >= 1) by (nonlinear_arith)
        requires
            1 <= c,
            1 <= d,
    ;
    let k = y / (c * d);
    lemma_fundamental_div_mod(y, c * d);
    assert(y == (c * d) * k);
    assert((c * d) * k == (k * c) * d) by (nonlinear_arith);
    lemma_mod_multiples_basic(k * c, d);
}

/// From one year to the next, the day count before the year grows by that
/// year's length.
pub proof fn lemma_days_before_year_step(y: int)
    requires
        1 <= y,
    ensures
        days_before_year(y + 1) == days_before_year(y) + days_in_year(y),
{
    lemma_div_step(y, 4);
    lemma_div_step(y, 100);
    lemma_div_step(y, 400);
    if y % 400 == 0 {
        lemma_mod_zero_factor(y, 4, 100);
        lemma_mod_zero_factor(y, 100, 4);
    }
    if y % 100 == 0 {
        lemma_mod_zero_factor(y, 25, 4);
    }
}

/// The day count before a year is monotone in the year, growing by at least
/// 365 and at most 366 days per year.
pub proof fn lemma_days_before_year_mono(y1: int, y2: int)
    requires
        1 <= y1 <= y2,
    ensures
        days_before_year(y1) + 365 * (y2 - y1) <= days_before_year(y2),
        days_before_year(y2) <= days_before_year(y1) + 366 * (y2 - y1),
    decreases y2 - y1,
{
    if y1 < y2 {
        lemma_days_before_year_mono(y1, y2 - 1);
        lemma_days_before_year_step(y2 - 1);
    }
}

/// A valid date's day number falls strictly between the day counts that
/// precede its year and the following year, and within the global range.
pub proof fn lemma_day_num_range(d: Date)
    requires
        d.valid(),
    ensures
        days_before_year(d.year as int) < day_num(d),
        day_num(d) <= days_before_year(d.year as int + 1),
        1 <= day_num(d) <= MAX_DAY_NUMBER,
{
    let y = d.year as int;
    let m = d.month as int;
    lemma_days_before_year_step(y);
    assert(days_before_month(y, m) + days_in_month_of(y, m) <= days_in_year(y));
    lemma_days_before_year_mono(1, y);
    lemma_days_before_year_mono(y + 1, 10000);
    assert(days_before_year(1) == 0);
    assert(days_before_year(10000) == MAX_DAY_NUMBER);
}

/// Distinct valid dates have distinct day numbers.
pub proof fn lemma_day_num_injective(d1: Date, d2: Date)
    requires
        d1.valid(),
        d2.valid(),
        day_num(d1) == day_num(d2),
    ensures
        d1 == d2,
{
    if d1.year != d2.year {
        if d1.year < d2.year {
            lemma_day_num_range(d1);
            lemma_day_num_range(d2);
            lemma_days_before_year_mono(d1.year as int + 1, d2.year as int);
        } else {
            lemma_day_num_range(d1);
            lemma_day_num_range(d2);
            lemma_days_before_year_mono(d2.year as int + 1, d1.year as int);
        }
    } else {
        let y = d1.year as int;
        if d1.month != d2.month {
            let ma = if d1.month < d2.month {
                d1.month as int
            } else {
                d2.month as int
            };
            let mb = if d1.month < d2.month {
                d2.month as int
            } else {
                d1.month as int
            };
            assert(days_before_month(y, ma) + days_in_month_of(y, ma) <= days_before_month(y, mb));
        }
    }
}

/// Whether `year` is a Gregorian leap year.
pub fn is_leap(year: i32) -> (r: bool)
    requires
        year >= 1,
    ensures
        r == is_leap_year(year as int),
{
    let y = year as u32;
    y % 4 == 0 && (y % 100 != 0 || y % 400 == 0)
}

/// Number of days in the given month of the given year.
pub fn days_in_month(year: i32, month: u8) -> (n: u8)
    requires
        year >= 1,
        1 <= month <= 12,
    ensures
        n == days_in_month_of(year as int, month as int),
{
    if month == 2 {
        if is_leap(year) {
            29
        } else {
            28
        }
    } else if month == 4 || month == 6 || month == 9 || month == 11 {
        30
    } else {
        31
    }
}

/// Day count before January 1 of year `y`, as executable arithmetic.
fn days_before_year_exec(y: u64) -> (r: u64)
    requires
        1 <= y <= 10000,
    ensures
        r == days_before_year(y as int),
        r <= MAX_DAY_NUMBER,
{
    let p = y - 1;
    proof {
        lemma_div_is_ordered_by_denominator(p as int, 4, 100);
        lemma_div_is_ordered(p as int, 9999, 4);
        lemma_div_is_ordered(p as int, 9999, 400);
    }
    365 * p + p / 4 - p / 100 + p / 400
}

/// Day count of year `year` before month `month`, as executable arithmetic.
fn days_before_month_exec(year: i32, month: u8) -> (r: u64)
    requires
        year >= 1,
        1 <= month <= 13,
    ensures
        r == days_before_month(year as int, month as int),
        r <= 366,
{
    let base: u64 = if month <= 1 {
        0
    } else if month == 2 {
        31
    } else if month == 3 {
        59
    } else if month == 4 {
        90
    } else if month == 5 {
        120
    } else if month == 6 {
        151
    } else if month == 7 {
        181
    } else if month == 8 {
        212
    } else if month == 9 {
        243
    } else if month == 10 {
        273
    } else if month == 11 {
        304
    } else if month == 12 {
        334
    } else {
        365
    };
    if month >= 3 && is_leap(year) {
        base + 1
    } else {
        base
    }
}

impl Date {
    /// Build a date after checking that the triple denotes a real calendar day.
    pub fn from_ymd(year: i32, month: u8, day: u8) -> (r: Option<Date>)
        ensures
            r is Some <==> (Date { year, month, day }).valid(),
            r matches Some(d) ==> d == (Date { year, month, day }) && d.valid(),
    {
        if year < MIN_YEAR || year > MAX_YEAR || month < 1 || month > 12 {
            return None;
        }
        if day < 1 || day > days_in_month(year, month) {
            return None;
        }
        Some(Date { year, month, day })
    }

    /// The linear day number of this date.
    pub fn to_day_number(&self) -> (n: i64)
        requires
            self.valid(),
        ensures
            n == day_num(*self),
            1 <= n <= MAX_DAY_NUMBER,
    {
        let base = days_before_year_exec(self.year as u64);
        let in_year = days_before_month_exec(self.year, self.month);
        proof {
            lemma_day_num_range(*self);
        }
        (base + in_year + self.day as u64) as i64
    }

    /// The date with the given linear day number.
    pub fn from_day_number(n: i64) -> (d: Date)
        requires
            1 <= n <= MAX_DAY_NUMBER,
        ensures
            d.valid(),
            day_num(d) == n,
    {
        let nu = n as u64;
        let mut y: u64 = 1;
        loop
            invariant
                1 <= nu <= MAX_DAY_NUMBER,
                1 <= y <= 9999,
                days_before_year(y as int) < nu,
            ensures
                1 <= y <= 9999,
                days_before_year(y as int) < nu,
                nu <= days_before_year(y as int + 1),
            decreases 9999 - y,
        {
            if y >= 9999 {
                proof {
                    assert(days_before_year(10000) == MAX_DAY_NUMBER);
                }
                break;
            }
            let next = days_before_year_exec(y + 1);
            if next >= nu {
                break;
            }
            y = y + 1;
        }
        let year_base = days_before_year_exec(y);
        let rem = nu - year_base;
        let year = y as i32;
        proof {
            lemma_days_before_year_step(y as int);
        }
        let mut m: u8 = 1;
        loop
            invariant
                year == y,
                1 <= y <= 9999,
                1 <= rem <= days_in_year(y as int),
                1 <= m <= 12,
                days_before_month(y as int, m as int) < rem,
            ensures
                1 <= m <= 12,
                days_before_month(y as int, m as int) < rem,
                rem <= days_before_month(y as int, m as int + 1),
            decreases 12 - m,
        {
            if m >= 12 {
                break;
            }
            let next = days_before_month_exec(year, m + 1);
            if next >= rem {
                break;
            }
            m = m + 1;
        }
        let month_base = days_before_month_exec(year, m);
        let day = (rem - month_base) as u8;
        Date { year, month: m, day }
    }

    /// Whether this date is on or before `other`, by day number.
    pub fn on_or_before(&self, other: &Date) -> (r: bool)
        requires
            self.valid(),
            other.valid(),
        ensures
            r == (day_num(*self) <= day_num(*other)),
    {
        self.to_day_number() <= other.to_day_number()
    }
}

} // verus!
