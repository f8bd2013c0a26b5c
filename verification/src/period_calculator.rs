//! The 13-period scheduling calendar: fixed-length periods projected from an
//! anchor date on a fixed cycle of `days_per_period * periods_per_year` days.
//!
//! The cycle (364 days by default) is deliberately shorter than a Gregorian
//! year, so the period grid drifts against the civil calendar over the years,
//! and a civil date can fall outside every period found near its own year.

use crate::date::{day_num, Date, MAX_DAY_NUMBER};
use vstd::arithmetic::div_mod::{
    lemma_fundamental_div_mod, lemma_fundamental_div_mod_converse,
    lemma_mod_division_less_than_divisor,
};
use vstd::arithmetic::mul::lemma_mul_inequality;
use vstd::prelude::*;

verus! {

/// Hour quota assigned to every period: twenty workdays of eight hours.
pub const PERIOD_HOUR_QUOTA: i32 = 160;

/// Configuration of the period grid.
#[derive(Clone, Copy, PartialEq, Eq, Structural, Debug)]
pub struct PeriodConfig {
    /// First day of period 1 of the anchor year.
    pub anchor_date: Date,
    /// Length of one period in days.
    pub days_per_period: i64,
    /// Number of periods in one cycle.
    pub periods_per_year: u8,
}

impl PeriodConfig {
    /// A usable configuration: a real anchor day, and a cycle that is at
    /// least one day and no longer than the supported calendar.
    pub open spec fn wf(self) -> bool {
        &&& self.anchor_date.valid()
        &&& 1 <= self.days_per_period
        &&& 1 <= self.periods_per_year
        &&& self.days_per_period * self.periods_per_year <= MAX_DAY_NUMBER
    }

    /// Length in days of one full cycle of periods.
    pub open spec fn year_len(self) -> int {
        self.days_per_period * self.periods_per_year
    }
}

/// The default grid: anchor January 12, 2026; 28-day periods; 13 per cycle.
pub open spec fn default_period_config() -> PeriodConfig {
    PeriodConfig {
        anchor_date: Date { year: 2026, month: 1, day: 12 },
        days_per_period: 28,
        periods_per_year: 13,
    }
}

impl Default for PeriodConfig {
    /// The default grid: anchor January 12, 2026; 28-day periods; 13 per cycle.
    fn default() -> (r: PeriodConfig)
        ensures
            r == default_period_config(),
            r.wf(),
    {
        PeriodConfig {
            anchor_date: Date { year: 2026, month: 1, day: 12 },
            days_per_period: 28,
            periods_per_year: 13,
        }
    }
}

/// One computed period of a year.
#[derive(Clone, Copy, PartialEq, Eq, Structural, Debug)]
pub struct CalculatedPeriod {
    /// Position in the cycle, from 1 to `periods_per_year`.
    pub number: u8,
    pub start_date: Date,
    pub end_date: Date,
    pub hour_quota: i32,
}

/// Day number of the first day of the cycle projected for `year`.
pub open spec fn grid_start(cfg: PeriodConfig, year: int) -> int {
    day_num(cfg.anchor_date) + cfg.year_len() * (year - cfg.anchor_date.year)
}

/// The whole cycle projected for `year` lies on supported day numbers.
pub open spec fn grid_in_range(cfg: PeriodConfig, year: int) -> bool {
    &&& 1 <= grid_start(cfg, year)
    &&& grid_start(cfg, year) + cfg.year_len() - 1 <= MAX_DAY_NUMBER
}

/// Signed day offset of `d` from the anchor date.
pub open spec fn grid_offset(cfg: PeriodConfig, d: Date) -> int {
    day_num(d) - day_num(cfg.anchor_date)
}

/// The (unique) projection year whose cycle contains `d`.
pub open spec fn grid_year_of(cfg: PeriodConfig, d: Date) -> int {
    cfg.anchor_date.year + grid_offset(cfg, d) / cfg.year_len()
}

/// Zero-based index of the period of its cycle that contains `d`.
pub open spec fn period_index_of(cfg: PeriodConfig, d: Date) -> int {
    (grid_offset(cfg, d) % cfg.year_len()) / (cfg.days_per_period as int)
}

/// The period search looks only at the cycles projected for the date's own
/// civil year and its two neighbours; it succeeds exactly when the cycle
/// containing the date is among those three.
pub open spec fn search_window_hit(cfg: PeriodConfig, d: Date) -> bool {
    d.year - 1 <= grid_year_of(cfg, d) <= d.year + 1
}

/// An offset lying within period `j` of the cycle of projection year
/// `anchor_year + k` is located at cycle `k`, period index `j`.
proof fn lemma_offset_in_period(cfg: PeriodConfig, k: int, j: int, off: int)
    requires
        cfg.wf(),
        0 <= j < cfg.periods_per_year,
        cfg.year_len() * k + cfg.days_per_period * j <= off,
        off <= cfg.year_len() * k + cfg.days_per_period * (j + 1) - 1,
    ensures
        off / cfg.year_len() == k,
        (off % cfg.year_len()) / (cfg.days_per_period as int) == j,
{
    let yl = cfg.year_len();
    let dpp = cfg.days_per_period as int;
    let rem = off - yl * k;
    assert(dpp <= yl) by (nonlinear_arith)
        requires
            1 <= dpp,
            1 <= cfg.periods_per_year,
            yl == dpp * cfg.periods_per_year,
    ;
    assert(dpp * (j + 1) <= yl) by {
        lemma_mul_inequality(j + 1, cfg.periods_per_year as int, dpp);
        assert(dpp * (j + 1) == (j + 1) * dpp) by (nonlinear_arith);
        assert(cfg.periods_per_year as int * dpp == dpp * cfg.periods_per_year as int)
            by (nonlinear_arith);
    }
    assert(off == k * yl + rem) by (nonlinear_arith)
        requires
            rem == off - yl * k,
    ;
    lemma_fundamental_div_mod_converse(off, yl, k, rem);
    assert(dpp * (j + 1) == dpp * j + dpp) by (nonlinear_arith);
    assert(rem == dpp * j + (rem - dpp * j));
    assert(rem - dpp * j < dpp);
    assert(dpp * j == j * dpp) by (nonlinear_arith);
    lemma_fundamental_div_mod_converse(rem, dpp, j, rem - dpp * j);
}

/// Conversely, every offset is contained in the period the two divisions
/// point at, and that period's index is a real one.
proof fn lemma_offset_locates(cfg: PeriodConfig, off: int)
    requires
        cfg.wf(),
    ensures
        0 <= (off % cfg.year_len()) / (cfg.days_per_period as int) < cfg.periods_per_year,
        cfg.year_len() * (off / cfg.year_len()) + cfg.days_per_period * ((off % cfg.year_len())
            / (cfg.days_per_period as int)) <= off,
        off <= cfg.year_len() * (off / cfg.year_len()) + cfg.days_per_period * ((off
            % cfg.year_len()) / (cfg.days_per_period as int) + 1) - 1,
{
    let yl = cfg.year_len();
    let dpp = cfg.days_per_period as int;
    assert(1 <= yl) by (nonlinear_arith)
        requires
            1 <= dpp,
            1 <= cfg.periods_per_year,
            yl == dpp * cfg.periods_per_year,
    ;
    lemma_fundamental_div_mod(off, yl);
    lemma_mod_division_less_than_divisor(off, yl);
    let rem = off % yl;
    lemma_fundamental_div_mod(rem, dpp);
    lemma_mod_division_less_than_divisor(rem, dpp);
    let j = rem / dpp;
    assert(0 <= j) by (nonlinear_arith)
        requires
            0 <= rem,
            1 <= dpp,
            j == rem / dpp,
    ;
    assert(j < cfg.periods_per_year) by (nonlinear_arith)
        requires
            rem < yl,
            yl == dpp * cfg.periods_per_year,
            1 <= dpp,
            0 <= rem,
            rem == dpp * j + rem % dpp,
            0 <= rem % dpp < dpp,
    ;
    assert(yl * (off / yl) == off - rem);
    assert(dpp * j <= rem && rem <= dpp * (j + 1) - 1) by (nonlinear_arith)
        requires
            rem == dpp * j + rem % dpp,
            0 <= rem % dpp < dpp,
    ;
}

/// The period calculator: projects the period grid of its configuration onto
/// any year and locates dates on it.
pub struct PeriodCalculator {
    pub config: PeriodConfig,
}

impl PeriodCalculator {
    /// Calculator with the default configuration.
    pub fn new() -> (r: Self)
        ensures
            r.config == default_period_config(),
    {
        PeriodCalculator { config: PeriodConfig::default() }
    }

    /// Calculator with the given configuration.
    pub fn with_config(config: PeriodConfig) -> (r: Self)
        ensures
            r.config == config,
    {
        PeriodCalculator { config }
    }

    /// Calculator with the default period shape but a custom anchor date.
    pub fn with_anchor(anchor_date: Date) -> (r: Self)
        ensures
            r.config == (PeriodConfig { anchor_date, ..default_period_config() }),
    {
        PeriodCalculator {
            config: PeriodConfig { anchor_date, days_per_period: 28, periods_per_year: 13 },
        }
    }

    /// All periods of the cycle projected for `year`: `periods_per_year`
    /// contiguous periods of `days_per_period` days each, numbered from 1,
    /// each carrying the fixed hour quota.
    #[verifier::rlimit(100)]
    pub fn calculate_periods(&self, year: i32) -> (r: Vec<CalculatedPeriod>)
        requires
            self.config.wf(),
            grid_in_range(self.config, year as int),
        ensures
            r@.len() == self.config.periods_per_year,
            forall|i: int|
                0 <= i < r@.len() ==> {
                    let p = #[trigger] r@[i];
                    &&& p.number == i + 1
                    &&& p.start_date.valid()
                    &&& p.end_date.valid()
                    &&& day_num(p.start_date) == grid_start(self.config, year as int)
                        + self.config.days_per_period * i
                    &&& day_num(p.end_date) == day_num(p.start_date) + self.config.days_per_period
                        - 1
                    &&& p.hour_quota == PERIOD_HOUR_QUOTA
                },
            forall|i: int|
                0 <= i < r@.len() - 1 ==> day_num(#[trigger] r@[i + 1].start_date) == day_num(
                    r@[i].end_date,
                ) + 1,
    {
        let cfg = &self.config;
        let anchor_dn = cfg.anchor_date.to_day_number();
        let delta = year as i64 - cfg.anchor_date.year as i64;
        let year_len = cfg.days_per_period * (cfg.periods_per_year as i64);
        let start = anchor_dn + year_len * delta;
        let ppy = cfg.periods_per_year;
        let mut out: Vec<CalculatedPeriod> = Vec::new();
        let mut i: u8 = 0;
        while i < ppy
            invariant
                self.config.wf(),
                grid_in_range(self.config, year as int),
                cfg == self.config,
                ppy == cfg.periods_per_year,
                start == grid_start(self.config, year as int),
                0 <= i <= ppy,
                out@.len() == i,
                forall|ix: int|
                    0 <= ix < out@.len() ==> {
                        let p = #[trigger] out@[ix];
                        &&& p.number == ix + 1
                        &&& p.start_date.valid()
                        &&& p.end_date.valid()
                        &&& day_num(p.start_date) == grid_start(self.config, year as int)
                            + self.config.days_per_period * ix
                        &&& day_num(p.end_date) == day_num(p.start_date)
                            + self.config.days_per_period - 1
                        &&& p.hour_quota == PERIOD_HOUR_QUOTA
                    },
            decreases ppy - i,
        {
            proof {
                let dppi = cfg.days_per_period as int;
                let ppyi = cfg.periods_per_year as int;
                assert(0 <= dppi * (i as int) && dppi * (i as int) + dppi <= dppi * ppyi)
                    by (nonlinear_arith)
                    requires
                        1 <= dppi,
                        0 <= i as int <= ppyi - 1,
                ;
            }
            let p_start = start + cfg.days_per_period * (i as i64);
            let p_end = p_start + (cfg.days_per_period - 1);
            let sd = Date::from_day_number(p_start);
            let ed = Date::from_day_number(p_end);
            out.push(
                CalculatedPeriod {
                    number: i + 1,
                    start_date: sd,
                    end_date: ed,
                    hour_quota: PERIOD_HOUR_QUOTA,
                },
            );
            i = i + 1;
        }
        proof {
            assert forall|ix: int|
                0 <= ix < out@.len() - 1 implies day_num(#[trigger] out@[ix + 1].start_date)
                == day_num(out@[ix].end_date) + 1 by {
                let dppi = self.config.days_per_period as int;
                assert(dppi * (ix + 1) == dppi * ix + dppi) by (nonlinear_arith);
            }
        }
        out
    }

    /// Scan the cycle projected for `year` for a period containing `date`.
    /// Succeeds exactly when that cycle is the one containing `date`.
    fn find_period_in_year(&self, date: Date, year: i32) -> (r: Option<CalculatedPeriod>)
        requires
            self.config.wf(),
            date.valid(),
            grid_in_range(self.config, year as int),
        ensures
            r is Some <==> grid_year_of(self.config, date) == year as int,
            r matches Some(p) ==> {
                &&& p.number == period_index_of(self.config, date) + 1
                &&& p.start_date.valid()
                &&& p.end_date.valid()
                &&& day_num(p.start_date) == grid_start(self.config, year as int)
                    + self.config.days_per_period * period_index_of(self.config, date)
                &&& day_num(p.end_date) == day_num(p.start_date) + self.config.days_per_period - 1
                &&& day_num(p.start_date) <= day_num(date) <= day_num(p.end_date)
                &&& p.hour_quota == PERIOD_HOUR_QUOTA
            },
    {
        let ghost cfg = self.config;
        let ghost off = day_num(date) - day_num(cfg.anchor_date);
        let ghost k = year as int - cfg.anchor_date.year;
        let periods = self.calculate_periods(year);
        let dn = date.to_day_number();
        let n = periods.len();
        let mut idx: usize = 0;
        while idx < n
            invariant
                self.config.wf(),
                date.valid(),
                grid_in_range(self.config, year as int),
                cfg == self.config,
                off == day_num(date) - day_num(cfg.anchor_date),
                k == year as int - cfg.anchor_date.year,
                dn == day_num(date),
                n == periods@.len(),
                n == cfg.periods_per_year,
                0 <= idx <= n,
                forall|i: int|
                    0 <= i < periods@.len() ==> {
                        let p = #[trigger] periods@[i];
                        &&& p.number == i + 1
                        &&& p.start_date.valid()
                        &&& p.end_date.valid()
                        &&& day_num(p.start_date) == grid_start(cfg, year as int)
                            + cfg.days_per_period * i
                        &&& day_num(p.end_date) == day_num(p.start_date) + cfg.days_per_period - 1
                        &&& p.hour_quota == PERIOD_HOUR_QUOTA
                    },
                forall|i: int|
                    0 <= i < idx ==> !(day_num((#[trigger] periods@[i]).start_date) <= day_num(date)
                        <= day_num(periods@[i].end_date)),
            decreases n - idx,
        {
            let p = periods[idx];
            if p.start_date.to_day_number() <= dn && dn <= p.end_date.to_day_number() {
                proof {
                    let dppi = cfg.days_per_period as int;
                    assert(dppi * (idx as int + 1) == dppi * (idx as int) + dppi)
                        by (nonlinear_arith);
                    lemma_offset_in_period(cfg, k, idx as int, off);
                }
                return Some(p);
            }
            idx = idx + 1;
        }
        proof {
            if grid_year_of(cfg, date) == year as int {
                lemma_offset_locates(cfg, off);
                let jj = (off % cfg.year_len()) / (cfg.days_per_period as int);
                let dppi = cfg.days_per_period as int;
                assert(dppi * (jj + 1) == dppi * jj + dppi) by (nonlinear_arith);
                assert(!(day_num(periods@[jj].start_date) <= day_num(date) <= day_num(
                    periods@[jj].end_date,
                )));
                assert(false);
            }
        }
        None
    }

    /// Find the period containing `date`, searching the cycles projected for
    /// the date's civil year and the two years beside it. The search fails
    /// exactly when the cycle containing `date` drifts outside that window —
    /// a structural gap of the 364-day calendar, not an error.
    pub fn get_period_for_date(&self, date: Date) -> (r: Option<CalculatedPeriod>)
        requires
            self.config.wf(),
            date.valid(),
            grid_in_range(self.config, date.year as int - 1),
            grid_in_range(self.config, date.year as int),
            grid_in_range(self.config, date.year as int + 1),
        ensures
            r is Some <==> search_window_hit(self.config, date),
            r matches Some(p) ==> {
                &&& p.number == period_index_of(self.config, date) + 1
                &&& p.start_date.valid()
                &&& p.end_date.valid()
                &&& day_num(p.start_date) == grid_start(self.config, grid_year_of(self.config, date))
                    + self.config.days_per_period * period_index_of(self.config, date)
                &&& day_num(p.end_date) == day_num(p.start_date) + self.config.days_per_period - 1
                &&& day_num(p.start_date) <= day_num(date) <= day_num(p.end_date)
                &&& p.hour_quota == PERIOD_HOUR_QUOTA
            },
    {
        let y = date.year;
        let same = self.find_period_in_year(date, y);
        if same.is_some() {
            return same;
        }
        let before = self.find_period_in_year(date, y - 1);
        if before.is_some() {
            return before;
        }
        self.find_period_in_year(date, y + 1)
    }

    /// Every date of the period, from its start to its end, in order.
    pub fn get_period_dates(&self, period: &CalculatedPeriod) -> (r: Vec<Date>)
        requires
            period.start_date.valid(),
            period.end_date.valid(),
        ensures
            day_num(period.start_date) <= day_num(period.end_date) ==> r@.len() == day_num(
                period.end_date,
            ) - day_num(period.start_date) + 1,
            day_num(period.start_date) > day_num(period.end_date) ==> r@.len() == 0,
            forall|i: int|
                0 <= i < r@.len() ==> (#[trigger] r@[i]).valid() && day_num(r@[i]) == day_num(
                    period.start_date,
                ) + i,
    {
        let s = period.start_date.to_day_number();
        let e = period.end_date.to_day_number();
        let mut out: Vec<Date> = Vec::new();
        let mut dn = s;
        while dn <= e
            invariant
                s == day_num(period.start_date),
                e == day_num(period.end_date),
                1 <= s <= MAX_DAY_NUMBER,
                1 <= e <= MAX_DAY_NUMBER,
                s <= dn,
                s <= e ==> dn <= e + 1,
                s > e ==> dn == s,
                out@.len() == dn - s,
                forall|i: int|
                    0 <= i < out@.len() ==> (#[trigger] out@[i]).valid() && day_num(out@[i]) == s
                        + i,
            decreases e + 1 - dn,
        {
            out.push(Date::from_day_number(dn));
            dn = dn + 1;
        }
        out
    }

    /// Whether the period starts and ends in different civil months.
    pub fn is_cross_month(&self, period: &CalculatedPeriod) -> (r: bool)
        ensures
            r == (period.start_date.month != period.end_date.month),
    {
        period.start_date.month != period.end_date.month
    }
}

impl Default for PeriodCalculator {
    /// Calculator with the default configuration.
    fn default() -> (r: Self)
        ensures
            r.config == default_period_config(),
    {
        PeriodCalculator::new()
    }
}

/// Round trip between period projection and period search: a date lying in
/// period `j` (zero-based) of the cycle projected for `year` is located by
/// the search at exactly that cycle and that period, provided `year` is
/// within one of the date's own civil year — the window the search scans.
pub proof fn lemma_period_round_trip(cfg: PeriodConfig, year: i32, j: int, d: Date)
    requires
        cfg.wf(),
        d.valid(),
        0 <= j < cfg.periods_per_year,
        grid_start(cfg, year as int) + cfg.days_per_period * j <= day_num(d),
        day_num(d) <= grid_start(cfg, year as int) + cfg.days_per_period * (j + 1) - 1,
        d.year - 1 <= year <= d.year + 1,
    ensures
        search_window_hit(cfg, d),
        grid_year_of(cfg, d) == year as int,
        period_index_of(cfg, d) == j,
{
    lemma_offset_in_period(
        cfg,
        year as int - cfg.anchor_date.year,
        j,
        day_num(d) - day_num(cfg.anchor_date),
    );
}

} // verus!
