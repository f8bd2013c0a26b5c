//! Public holidays for a given year: seven fixed-date holidays plus three
//! holidays at fixed offsets from Easter Sunday, returned sorted by date.
//!
//! Easter Sunday is computed with the anonymous Gregorian (Computus)
//! algorithm, in integer arithmetic only.

use crate::date::{
    day_num, days_before_year, lemma_day_num_range, lemma_days_before_year_mono,
    lemma_days_before_year_step, Date, MAX_YEAR, MIN_YEAR,
};
use vstd::arithmetic::div_mod::{
    lemma_div_is_ordered, lemma_fundamental_div_mod, lemma_mod_division_less_than_divisor,
};
use vstd::prelude::*;
use vstd::string::*;

verus! {

/// One public holiday of a year.
#[derive(Debug, Clone)]
pub struct Holiday {
    pub date: Date,
    pub name: String,
    pub is_moveable: bool,
}

/// The facts about a holiday that contracts speak of: its day number, its
/// name, and whether it is Easter-relative.
pub open spec fn hol_view(h: Holiday) -> (int, Seq<char>, bool) {
    (day_num(h.date), h.name@, h.is_moveable)
}

/// Month (`.0`) and day (`.1`) of Easter Sunday of `year`, by the anonymous
/// Gregorian algorithm.
pub open spec fn easter_md(year: int) -> (int, int) {
    let a = year % 19;
    let b = year / 100;
    let c = year % 100;
    let d = b / 4;
    let e = b % 4;
    let f = (b + 8) / 25;
    let g = (b - f + 1) / 3;
    let h = (19 * a + b - d - g + 15) % 30;
    let i = c / 4;
    let k = c % 4;
    let l = (32 + 2 * e + 2 * i - h - k) % 7;
    let m = (a + 11 * h + 22 * l) / 451;
    let x = h + l - 7 * m + 114;
    (x / 31, x % 31 + 1)
}

pub open spec fn easter_month(year: int) -> int {
    easter_md(year).0
}

pub open spec fn easter_day(year: int) -> int {
    easter_md(year).1
}

/// Easter Sunday of `year` as a date value.
pub open spec fn easter_date_spec(year: i32) -> Date {
    Date { year, month: easter_month(year as int) as u8, day: easter_day(year as int) as u8 }
}

/// Easter Sunday always falls between March 15 and April 26; in particular it
/// is a valid date of its year.
pub proof fn lemma_easter_bounds(year: int)
    requires
        1 <= year,
    ensures
        easter_month(year) == 3 || easter_month(year) == 4,
        easter_month(year) == 3 ==> 15 <= easter_day(year) <= 31,
        easter_month(year) == 4 ==> 1 <= easter_day(year) <= 26,
{
    let a = year % 19;
    let b = year / 100;
    let c = year % 100;
    let d = b / 4;
    let e = b % 4;
    let f = (b + 8) / 25;
    let g = (b - f + 1) / 3;
    let h = (19 * a + b - d - g + 15) % 30;
    let i = c / 4;
    let k = c % 4;
    let l = (32 + 2 * e + 2 * i - h - k) % 7;
    let m = (a + 11 * h + 22 * l) / 451;
    let x = h + l - 7 * m + 114;
    lemma_mod_division_less_than_divisor(year, 19);
    lemma_mod_division_less_than_divisor(19 * a + b - d - g + 15, 30);
    lemma_mod_division_less_than_divisor(32 + 2 * e + 2 * i - h - k, 7);
    lemma_fundamental_div_mod(a + 11 * h + 22 * l, 451);
    lemma_mod_division_less_than_divisor(a + 11 * h + 22 * l, 451);
    assert(107 <= x <= 149);
    lemma_div_is_ordered(107, x, 31);
    lemma_div_is_ordered(x, 149, 31);
    lemma_fundamental_div_mod(x, 31);
    lemma_mod_division_less_than_divisor(x, 31);
}

/// The ten holidays of a year in ascending date order, as `hol_view` facts:
/// seven fixed dates plus Easter Monday, Ascension and Whit Monday at one, 39
/// and 50 days past Easter Sunday. Only Ascension and Labour Day can swap
/// places from one year to the next; on the years where they coincide, Labour
/// Day is listed first.
pub open spec fn holiday_schedule(year: i32) -> Seq<(int, Seq<char>, bool)> {
    let e = day_num(easter_date_spec(year));
    let jan1 = (day_num(Date { year, month: 1, day: 1 }), "Nouvel An"@, false);
    let may1 = (day_num(Date { year, month: 5, day: 1 }), "Fête du Travail"@, false);
    let jul21 = (day_num(Date { year, month: 7, day: 21 }), "Fête Nationale"@, false);
    let aug15 = (day_num(Date { year, month: 8, day: 15 }), "Assomption"@, false);
    let nov1 = (day_num(Date { year, month: 11, day: 1 }), "Toussaint"@, false);
    let nov11 = (day_num(Date { year, month: 11, day: 11 }), "Armistice"@, false);
    let dec25 = (day_num(Date { year, month: 12, day: 25 }), "Noël"@, false);
    let easter_monday = (e + 1, "Lundi de Pâques"@, true);
    let ascension = (e + 39, "Ascension"@, true);
    let whit_monday = (e + 50, "Lundi de Pentecôte"@, true);
    seq![
        jan1,
        easter_monday,
        if e + 39 < may1.0 {
            ascension
        } else {
            may1
        },
        if e + 39 < may1.0 {
            may1
        } else {
            ascension
        },
        whit_monday,
        jul21,
        aug15,
        nov1,
        nov11,
        dec25,
    ]
}

/// The holiday schedule lists ten holidays in ascending date order.
pub proof fn lemma_holiday_schedule_sorted(year: i32)
    requires
        1 <= year <= 9999,
    ensures
        holiday_schedule(year).len() == 10,
        forall|i: int, j: int|
            0 <= i <= j < 10 ==> #[trigger] holiday_schedule(year)[i].0
                <= #[trigger] holiday_schedule(year)[j].0,
{
    lemma_easter_bounds(year as int);
}

/// The three Easter-relative holidays sit at fixed offsets from Easter
/// Sunday: Easter Monday one day past it, Ascension 39 days, Whit Monday 50
/// days; they and only they are marked moveable.
pub proof fn lemma_holiday_schedule_easter_offsets(year: i32)
    requires
        1 <= year <= 9999,
    ensures
        holiday_schedule(year)[1] == (
            day_num(easter_date_spec(year)) + 1,
            "Lundi de Pâques"@,
            true,
        ),
        holiday_schedule(year)[2] == (
            day_num(easter_date_spec(year)) + 39,
            "Ascension"@,
            true,
        ) || holiday_schedule(year)[3] == (
            day_num(easter_date_spec(year)) + 39,
            "Ascension"@,
            true,
        ),
        holiday_schedule(year)[4] == (
            day_num(easter_date_spec(year)) + 50,
            "Lundi de Pentecôte"@,
            true,
        ),
        forall|i: int|
            0 <= i < 10 && i != 1 && i != 2 && i != 3 && i != 4 ==> !(
            #[trigger] holiday_schedule(year)[i]).2,
        holiday_schedule(year)[2].2 && holiday_schedule(year)[3].2 ==> false,
{
    lemma_easter_bounds(year as int);
}

/// On every year where Ascension does not coincide with Labour Day — that is,
/// whenever Easter Sunday is not March 23 — the ten holiday dates are
/// pairwise distinct.
pub proof fn lemma_holiday_dates_distinct(year: i32)
    requires
        1 <= year <= 9999,
        !(easter_month(year as int) == 3 && easter_day(year as int) == 23),
    ensures
        forall|i: int, j: int|
            0 <= i < j < 10 ==> #[trigger] holiday_schedule(year)[i].0
                != #[trigger] holiday_schedule(year)[j].0,
{
    lemma_easter_bounds(year as int);
}

/// Holiday calculator: Easter and the derived yearly holiday list.
pub struct HolidayCalculator;

impl HolidayCalculator {
    /// Easter Sunday of the given year, by the anonymous Gregorian algorithm.
    pub fn calculate_easter(year: i32) -> (r: Date)
        requires
            MIN_YEAR <= year <= MAX_YEAR,
        ensures
            r == easter_date_spec(year),
            r.valid(),
            r.year == year,
    {
        let yy = year as u32;
        let a = yy % 19;
        let b = yy / 100;
        let c = yy % 100;
        let d = b / 4;
        let e = b % 4;
        let f = (b + 8) / 25;
        proof {
            lemma_fundamental_div_mod(b as int + 8, 25);
            lemma_mod_division_less_than_divisor(b as int + 8, 25);
            lemma_fundamental_div_mod(b as int, 4);
            lemma_mod_division_less_than_divisor(b as int, 4);
        }
        let g = (b + 1 - f) / 3;
        proof {
            lemma_fundamental_div_mod(b as int + 1 - f as int, 3);
            lemma_mod_division_less_than_divisor(b as int + 1 - f as int, 3);
            lemma_mod_division_less_than_divisor(yy as int, 19);
        }
        let h = (19 * a + b + 15 - d - g) % 30;
        let i = c / 4;
        let k = c % 4;
        proof {
            lemma_mod_division_less_than_divisor(
                19 * (a as int) + b as int + 15 - d as int - g as int,
                30,
            );
            lemma_mod_division_less_than_divisor(c as int, 4);
        }
        let l = (32 + 2 * e + 2 * i - h - k) % 7;
        let m = (a + 11 * h + 22 * l) / 451;
        proof {
            lemma_mod_division_less_than_divisor(
                32 + 2 * (e as int) + 2 * (i as int) - h as int - k as int,
                7,
            );
            lemma_fundamental_div_mod(a as int + 11 * (h as int) + 22 * (l as int), 451);
            lemma_mod_division_less_than_divisor(a as int + 11 * (h as int) + 22 * (l as int), 451);
        }
        let x = h + l + 114 - 7 * m;
        let month = x / 31;
        let day = x % 31 + 1;
        proof {
            lemma_div_is_ordered(107, x as int, 31);
            lemma_div_is_ordered(x as int, 149, 31);
            lemma_fundamental_div_mod(x as int, 31);
            lemma_mod_division_less_than_divisor(x as int, 31);
        }
        Date { year, month: month as u8, day: day as u8 }
    }

    /// All public holidays of the given year, sorted ascending by date:
    /// the list realises exactly `holiday_schedule(year)`.
    #[verifier::rlimit(50)]
    pub fn calculate_holidays(year: i32) -> (r: Vec<Holiday>)
        requires
            MIN_YEAR <= year <= MAX_YEAR,
        ensures
            r@.len() == 10,
            r@.map_values(|h: Holiday| hol_view(h)) == holiday_schedule(year),
            forall|i: int| 0 <= i < r@.len() ==> (#[trigger] r@[i]).date.valid(),
    {
        let easter = Self::calculate_easter(year);
        let e_dn = easter.to_day_number();
        proof {
            lemma_easter_bounds(year as int);
            lemma_day_num_range(easter);
            lemma_days_before_year_step(year as int);
            lemma_days_before_year_mono(year as int + 1, 10000);
            assert(day_num(easter) <= days_before_year(year as int) + 117);
        }
        let easter_monday = Date::from_day_number(e_dn + 1);
        let ascension = Date::from_day_number(e_dn + 39);
        let whit_monday = Date::from_day_number(e_dn + 50);
        let may1 = Date { year, month: 5, day: 1 };
        let mut r: Vec<Holiday> = Vec::new();
        r.push(
            Holiday {
                date: Date { year, month: 1, day: 1 },
                name: String::from_str("Nouvel An"),
                is_moveable: false,
            },
        );
        r.push(
            Holiday {
                date: easter_monday,
                name: String::from_str("Lundi de Pâques"),
                is_moveable: true,
            },
        );
        if e_dn + 39 < may1.to_day_number() {
            r.push(
                Holiday { date: ascension, name: String::from_str("Ascension"), is_moveable: true },
            );
            r.push(
                Holiday { date: may1, name: String::from_str("Fête du Travail"), is_moveable: false },
            );
        } else {
            r.push(
                Holiday { date: may1, name: String::from_str("Fête du Travail"), is_moveable: false },
            );
            r.push(
                Holiday { date: ascension, name: String::from_str("Ascension"), is_moveable: true },
            );
        }
        r.push(
            Holiday {
                date: whit_monday,
                name: String::from_str("Lundi de Pentecôte"),
                is_moveable: true,
            },
        );
        r.push(
            Holiday {
                date: Date { year, month: 7, day: 21 },
                name: String::from_str("Fête Nationale"),
                is_moveable: false,
            },
        );
        r.push(
            Holiday {
                date: Date { year, month: 8, day: 15 },
                name: String::from_str("Assomption"),
                is_moveable: false,
            },
        );
        r.push(
            Holiday {
                date: Date { year, month: 11, day: 1 },
                name: String::from_str("Toussaint"),
                is_moveable: false,
            },
        );
        r.push(
            Holiday {
                date: Date { year, month: 11, day: 11 },
                name: String::from_str("Armistice"),
                is_moveable: false,
            },
        );
        r.push(
            Holiday {
                date: Date { year, month: 12, day: 25 },
                name: String::from_str("Noël"),
                is_moveable: false,
            },
        );
        proof {
            assert(r@.map_values(|h: Holiday| hol_view(h)) =~= holiday_schedule(year));
        }
        r
    }

    /// Whether `date` appears in `holidays`.
    pub fn is_holiday(date: Date, holidays: &Vec<Holiday>) -> (r: bool)
        ensures
            r == exists|i: int|
                0 <= i < holidays@.len() && (#[trigger] holidays@[i]).date == date,
    {
        let n = holidays.len();
        let mut idx: usize = 0;
        while idx < n
            invariant
                n == holidays@.len(),
                0 <= idx <= n,
                forall|j: int| 0 <= j < idx ==> (#[trigger] holidays@[j]).date != date,
            decreases n - idx,
        {
            if holidays[idx].date == date {
                return true;
            }
            idx = idx + 1;
        }
        false
    }

    /// The name of the first holiday in `holidays` that falls on `date`,
    /// if any does.
    pub fn get_holiday_name<'a>(date: Date, holidays: &'a Vec<Holiday>) -> (r: Option<&'a str>)
        ensures
            r matches Some(s) ==> exists|i: int|
                0 <= i < holidays@.len() && (#[trigger] holidays@[i]).date == date && s@
                    == holidays@[i].name@ && (forall|j: int|
                    0 <= j < i ==> (#[trigger] holidays@[j]).date != date),
            r is None ==> forall|i: int|
                0 <= i < holidays@.len() ==> (#[trigger] holidays@[i]).date != date,
    {
        let n = holidays.len();
        let mut idx: usize = 0;
        while idx < n
            invariant
                n == holidays@.len(),
                0 <= idx <= n,
                forall|j: int| 0 <= j < idx ==> (#[trigger] holidays@[j]).date != date,
            decreases n - idx,
        {
            if holidays[idx].date == date {
                return Some(holidays[idx].name.as_str());
            }
            idx = idx + 1;
        }
        None
    }
}

} // verus!
