//! The closed set of shift categories a shift type belongs to, and which of
//! them count toward the hour quota.

use vstd::prelude::*;

verus! {

/// Category of a shift type.
#[derive(Debug, Clone, Copy, PartialEq, Eq, Structural)]
pub enum ShiftCategory {
    /// Standard shifts (101, 102 and their 6/7-prefixed variants).
    Standard,
    /// Intermediate shifts (111, 112 and their 6/7-prefixed variants).
    Intermediate,
    /// Night shifts (121 family), credited a full night.
    Night,
    /// Partial-day shifts (X_AM, X_PM).
    Partial,
    /// Special shifts (X_10, AG).
    Special,
    /// Rest days (RH, CH, RR, ZM), of zero duration.
    Rest,
    /// Leave days (CN, JC, CV).
    Leave,
}

impl ShiftCategory {
    /// Whether shifts of this category count toward the hour quota:
    /// every category but rest days does.
    pub fn is_countable(&self) -> (r: bool)
        ensures
            r == !(*self matches ShiftCategory::Rest),
    {
        match self {
            ShiftCategory::Rest => false,
            _ => true,
        }
    }
}

} // verus!
