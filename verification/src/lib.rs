//! Workforce shift-planning core: a 13-period scheduling calendar, public
//! holiday computation, and per-period quota compliance checking.
//!
//! The library is organised around three pure services:
//! - `holiday_calculator`: fixed and Easter-relative public holidays per year;
//! - `period_calculator`: 28-day periods projected from an anchor date;
//! - `quota_validator`: hard and soft quota rules on a per-period balance.
//!
//! Supporting modules model civil dates (`date`) and the small domain value
//! objects used by schedule planning (`shift_code`, `color`, `night_hours`,
//! `shift_category`, `personnel`).

pub mod color;
pub mod date;
pub mod holiday_calculator;
pub mod night_hours;
pub mod period_calculator;
pub mod personnel;
pub mod quota_validator;
pub mod shift_category;
pub mod shift_code;
pub mod strutil;
