//! Per-period quota compliance: hard rules (blocking errors) and soft rules
//! (informational warnings) checked against one agent's period balance.
//!
//! All hour quantities are integers counting tenths of an hour, so that the
//! rules compare exactly: 160 hours is written 1600.

use vstd::prelude::*;

verus! {

/// Aggregated tally of one agent's assignments within one period, built by
/// the caller from the shift store. A snapshot: the validator never changes
/// it. Hours are in tenths of an hour.
#[derive(Clone, Copy, PartialEq, Eq, Structural, Debug)]
pub struct PeriodBalance {
    /// Total worked hours, in tenths of an hour.
    pub total_hours_tenths: i64,
    /// Night hours, in tenths of an hour.
    pub night_hours_tenths: i64,
    /// Days of habitual leave (CH) taken.
    pub ch_count: i32,
    /// Days of weekly rest (RH) taken.
    pub rh_count: i32,
    /// Days of seniority leave (CV) taken.
    pub cv_count: i32,
    /// Recovery rest days (RR) planned for holiday work.
    pub rr_count: i32,
    /// Days of entitlement leave (CN) taken.
    pub cn_count: i32,
    /// Compensation days (JC) taken.
    pub jc_count: i32,
    /// Public holidays the agent worked on.
    pub holidays_worked: i32,
}

impl PeriodBalance {
    /// Expected CH count per period.
    pub const EXPECTED_CH: i32 = 4;

    /// Expected RH count per period.
    pub const EXPECTED_RH: i32 = 4;

    /// Expected CV count per period.
    pub const EXPECTED_CV: i32 = 1;

    /// Maximum hours per period, in tenths of an hour (160 hours).
    pub const MAX_HOURS_TENTHS: i64 = 1600;
}

/// A blocking violation of a hard quota rule.
#[derive(Clone, Copy, PartialEq, Eq, Structural, Debug)]
pub enum QuotaError {
    /// Worked hours exceed the period ceiling; both values in tenths of an hour.
    HoursExceeded { actual: i64, max: i64 },
    /// Fewer recovery rest days than holidays worked.
    MissingRecoveryDay { holidays_worked: i32, rr_count: i32 },
}

/// An informational deviation from a soft quota rule.
#[derive(Clone, Copy, PartialEq, Eq, Structural, Debug)]
pub enum QuotaWarning {
    /// CH count differs from the expected count.
    ChCountMismatch { actual: i32, expected: i32 },
    /// RH count differs from the expected count.
    RhCountMismatch { actual: i32, expected: i32 },
    /// CV count differs from the expected count.
    CvCountMismatch { actual: i32, expected: i32 },
}

/// Verdict on one period balance. `is_valid` holds exactly when there are no
/// errors; warnings never affect it.
#[derive(Clone, Debug)]
pub struct ValidationResult {
    pub is_valid: bool,
    pub errors: Vec<QuotaError>,
    pub warnings: Vec<QuotaWarning>,
}

impl ValidationResult {
    /// Whether any blocking error was found.
    pub fn has_errors(&self) -> (r: bool)
        ensures
            r == (self.errors@.len() > 0),
    {
        self.errors.len() > 0
    }

    /// Whether any warning was found.
    pub fn has_warnings(&self) -> (r: bool)
        ensures
            r == (self.warnings@.len() > 0),
    {
        self.warnings.len() > 0
    }
}

/// The quota rules checked against a balance, with the thresholds of the
/// given validator.
pub struct QuotaValidator {
    /// Expected CH count per period.
    pub expected_ch: i32,
    /// Expected RH count per period.
    pub expected_rh: i32,
    /// Expected CV count per period.
    pub expected_cv: i32,
    /// Maximum hours per period, in tenths of an hour.
    pub max_hours_tenths: i64,
}

/// The exact error list `validate` produces: the hours ceiling first, then
/// holiday-recovery coverage, each present exactly when its rule is broken.
pub open spec fn expected_errors(v: QuotaValidator, b: PeriodBalance) -> Seq<QuotaError> {
    (if b.total_hours_tenths > v.max_hours_tenths {
        seq![QuotaError::HoursExceeded { actual: b.total_hours_tenths, max: v.max_hours_tenths }]
    } else {
        Seq::<QuotaError>::empty()
    }) + (if b.holidays_worked > 0 && b.rr_count < b.holidays_worked {
        seq![
            QuotaError::MissingRecoveryDay {
                holidays_worked: b.holidays_worked,
                rr_count: b.rr_count,
            },
        ]
    } else {
        Seq::<QuotaError>::empty()
    })
}

/// The exact warning list `validate` produces: CH, then RH, then CV, each
/// present exactly when the count differs from the expected one.
pub open spec fn expected_warnings(v: QuotaValidator, b: PeriodBalance) -> Seq<QuotaWarning> {
    (if b.ch_count != v.expected_ch {
        seq![QuotaWarning::ChCountMismatch { actual: b.ch_count, expected: v.expected_ch }]
    } else {
        Seq::<QuotaWarning>::empty()
    }) + (if b.rh_count != v.expected_rh {
        seq![QuotaWarning::RhCountMismatch { actual: b.rh_count, expected: v.expected_rh }]
    } else {
        Seq::<QuotaWarning>::empty()
    }) + (if b.cv_count != v.expected_cv {
        seq![QuotaWarning::CvCountMismatch { actual: b.cv_count, expected: v.expected_cv }]
    } else {
        Seq::<QuotaWarning>::empty()
    })
}

impl QuotaValidator {
    /// Validator with the organisational default thresholds.
    pub fn new() -> (r: Self)
        ensures
            r.expected_ch == PeriodBalance::EXPECTED_CH,
            r.expected_rh == PeriodBalance::EXPECTED_RH,
            r.expected_cv == PeriodBalance::EXPECTED_CV,
            r.max_hours_tenths == PeriodBalance::MAX_HOURS_TENTHS,
    {
        QuotaValidator {
            expected_ch: PeriodBalance::EXPECTED_CH,
            expected_rh: PeriodBalance::EXPECTED_RH,
            expected_cv: PeriodBalance::EXPECTED_CV,
            max_hours_tenths: PeriodBalance::MAX_HOURS_TENTHS,
        }
    }

    /// Check every rule against `balance` and collect all violations:
    /// exactly the errors and warnings of the two spec lists, in their
    /// order, with validity holding exactly when no error was found.
    pub fn validate(&self, balance: &PeriodBalance) -> (r: ValidationResult)
        ensures
            r.errors@ == expected_errors(*self, *balance),
            r.warnings@ == expected_warnings(*self, *balance),
            r.is_valid == (expected_errors(*self, *balance).len() == 0),
    {
        let mut errors: Vec<QuotaError> = Vec::new();
        let mut warnings: Vec<QuotaWarning> = Vec::new();
        if balance.total_hours_tenths > self.max_hours_tenths {
            errors.push(
                QuotaError::HoursExceeded {
                    actual: balance.total_hours_tenths,
                    max: self.max_hours_tenths,
                },
            );
        }
        if balance.holidays_worked > 0 && balance.rr_count < balance.holidays_worked {
            errors.push(
                QuotaError::MissingRecoveryDay {
                    holidays_worked: balance.holidays_worked,
                    rr_count: balance.rr_count,
                },
            );
        }
        if balance.ch_count != self.expected_ch {
            warnings.push(
                QuotaWarning::ChCountMismatch {
                    actual: balance.ch_count,
                    expected: self.expected_ch,
                },
            );
        }
        if balance.rh_count != self.expected_rh {
            warnings.push(
                QuotaWarning::RhCountMismatch {
                    actual: balance.rh_count,
                    expected: self.expected_rh,
                },
            );
        }
        if balance.cv_count != self.expected_cv {
            warnings.push(
                QuotaWarning::CvCountMismatch {
                    actual: balance.cv_count,
                    expected: self.expected_cv,
                },
            );
        }
        proof {
            assert(errors@ =~= expected_errors(*self, *balance));
            assert(warnings@ =~= expected_warnings(*self, *balance));
        }
        let is_valid = errors.len() == 0;
        ValidationResult { is_valid, errors, warnings }
    }

    /// Whether `balance` breaks no hard rule.
    pub fn is_valid(&self, balance: &PeriodBalance) -> (r: bool)
        ensures
            r == (expected_errors(*self, *balance).len() == 0),
    {
        self.validate(balance).is_valid
    }
}

impl Default for QuotaValidator {
    /// Validator with the organisational default thresholds.
    fn default() -> (r: Self)
        ensures
            r.expected_ch == PeriodBalance::EXPECTED_CH,
            r.expected_rh == PeriodBalance::EXPECTED_RH,
            r.expected_cv == PeriodBalance::EXPECTED_CV,
            r.max_hours_tenths == PeriodBalance::MAX_HOURS_TENTHS,
    {
        QuotaValidator::new()
    }
}

} // verus!
