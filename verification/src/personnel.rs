//! Personnel-side value types shared with the planning core: user roles and
//! per-year leave balances.

use vstd::prelude::*;

verus! {

/// Role of a system user.
#[derive(Debug, Clone, Copy, PartialEq, Eq, Structural)]
pub enum UserRole {
    Admin,
    Planner,
    Agent,
}

/// Balance of one leave kind (CN or JC) for one user and year.
#[derive(Debug, Clone, Copy, PartialEq, Eq, Structural)]
pub struct LeaveBalance {
    /// Annual entitlement.
    pub entitlement: i32,
    /// Days carried over from the previous year.
    pub carryover: i32,
    /// Total available: entitlement plus carryover.
    pub total: i32,
    /// Days used so far.
    pub used: i32,
    /// Days remaining: total minus used.
    pub remaining: i32,
}

} // verus!
