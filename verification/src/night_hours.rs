//! Night-hour classification of shift codes: a full night credit, a partial
//! one, or none.

use crate::shift_code::{is_full_night_code, is_partial_night_code};
use crate::strutil::str_eq;
use vstd::prelude::*;

verus! {

/// Night-hour category of a shift code.
#[derive(Debug, Clone, Copy, PartialEq, Eq, Structural)]
pub enum NightHoursCategory {
    /// Full night shift: eight hours credited.
    Full,
    /// Partial night: two hours credited.
    Partial,
    /// No night hours.
    NoNight,
}

/// The category a shift code falls in.
pub open spec fn night_category_of(code: Seq<char>) -> NightHoursCategory {
    if is_full_night_code(code) {
        NightHoursCategory::Full
    } else if is_partial_night_code(code) {
        NightHoursCategory::Partial
    } else {
        NightHoursCategory::NoNight
    }
}

/// Night hours credited to a category, in tenths of an hour.
pub open spec fn category_hours_tenths(c: NightHoursCategory) -> int {
    match c {
        NightHoursCategory::Full => 80,
        NightHoursCategory::Partial => 20,
        NightHoursCategory::NoNight => 0,
    }
}

impl NightHoursCategory {
    /// Classify a shift code.
    pub fn from_code(code: &str) -> (r: NightHoursCategory)
        ensures
            r == night_category_of(code@),
    {
        if str_eq(code, "121") || str_eq(code, "6121") || str_eq(code, "7121") {
            NightHoursCategory::Full
        } else if str_eq(code, "101") || str_eq(code, "102") || str_eq(code, "6101") || str_eq(
            code,
            "6102",
        ) || str_eq(code, "7101") || str_eq(code, "7102") || str_eq(code, "111") || str_eq(
            code,
            "112",
        ) || str_eq(code, "6111") || str_eq(code, "6112") || str_eq(code, "7111") || str_eq(
            code,
            "7112",
        ) || str_eq(code, "X_AM") || str_eq(code, "X_PM") {
            NightHoursCategory::Partial
        } else {
            NightHoursCategory::NoNight
        }
    }

    /// Night hours of this category, in tenths of an hour.
    pub fn hours_tenths(&self) -> (r: i64)
        ensures
            r == category_hours_tenths(*self),
    {
        match self {
            NightHoursCategory::Full => 80,
            NightHoursCategory::Partial => 20,
            NightHoursCategory::NoNight => 0,
        }
    }

    /// Whether this category credits any night hours.
    pub fn has_night_hours(&self) -> (r: bool)
        ensures
            r == (category_hours_tenths(*self) > 0),
    {
        match self {
            NightHoursCategory::NoNight => false,
            _ => true,
        }
    }
}

impl Default for NightHoursCategory {
    /// No night hours.
    fn default() -> (r: Self)
        ensures
            r == NightHoursCategory::NoNight,
    {
        NightHoursCategory::NoNight
    }
}

} // verus!
