//! Validated shift codes: the closed list of prestation (worked) and repos
//! (rest/leave) codes used on planning matrices, with their night-hour and
//! holiday-work classification.

use crate::strutil::{str_eq, upper_seq, upper_string};
use vstd::prelude::*;
use vstd::string::*;

verus! {

/// The known prestation (worked-shift) codes.
pub open spec fn is_prestation_code(s: Seq<char>) -> bool {
    ||| s == "101"@
    ||| s == "102"@
    ||| s == "111"@
    ||| s == "112"@
    ||| s == "121"@
    ||| s == "6101"@
    ||| s == "6102"@
    ||| s == "6111"@
    ||| s == "6112"@
    ||| s == "6121"@
    ||| s == "7101"@
    ||| s == "7102"@
    ||| s == "7111"@
    ||| s == "7112"@
    ||| s == "7121"@
    ||| s == "X_AM"@
    ||| s == "X_PM"@
    ||| s == "X_10"@
    ||| s == "AG"@
}

/// The known repos (rest and leave) codes.
pub open spec fn is_repos_code(s: Seq<char>) -> bool {
    ||| s == "CN"@
    ||| s == "JC"@
    ||| s == "RH"@
    ||| s == "CH"@
    ||| s == "RR"@
    ||| s == "CV"@
    ||| s == "ZM"@
}

/// Any known code, prestation or repos.
pub open spec fn is_known_code(s: Seq<char>) -> bool {
    is_prestation_code(s) || is_repos_code(s)
}

/// Codes credited with a full night (eight hours).
pub open spec fn is_full_night_code(s: Seq<char>) -> bool {
    ||| s == "121"@
    ||| s == "6121"@
    ||| s == "7121"@
}

/// Codes credited with a partial night (two hours).
pub open spec fn is_partial_night_code(s: Seq<char>) -> bool {
    ||| s == "101"@
    ||| s == "102"@
    ||| s == "6101"@
    ||| s == "6102"@
    ||| s == "7101"@
    ||| s == "7102"@
    ||| s == "111"@
    ||| s == "112"@
    ||| s == "6111"@
    ||| s == "6112"@
    ||| s == "7111"@
    ||| s == "7112"@
    ||| s == "X_AM"@
    ||| s == "X_PM"@
}

/// Codes that mark work on a public holiday (the `7xxx` family).
pub open spec fn is_holiday_work_code(s: Seq<char>) -> bool {
    ||| s == "7101"@
    ||| s == "7102"@
    ||| s == "7111"@
    ||| s == "7112"@
    ||| s == "7121"@
}

/// Night hours credited to a code, in tenths of an hour.
pub open spec fn night_hours_tenths_of(s: Seq<char>) -> int {
    if is_full_night_code(s) {
        80
    } else if is_partial_night_code(s) {
        20
    } else {
        0
    }
}

/// A shift code, upper-cased on construction.
#[derive(Debug, Clone, PartialEq, Eq, Hash)]
pub struct ShiftCode {
    code: String,
}

impl View for ShiftCode {
    type V = Seq<char>;

    closed spec fn view(&self) -> Seq<char> {
        self.code@
    }
}

/// Rejection of a shift code that is not on the known lists.
#[derive(Debug, Clone, PartialEq, Eq)]
pub enum ShiftCodeError {
    /// The (upper-cased) code is not a known prestation or repos code.
    Unknown(String),
}

/// Whether `code` is one of the known prestation codes.
fn code_is_prestation(code: &str) -> (r: bool)
    ensures
        r == is_prestation_code(code@),
{
    str_eq(code, "101") || str_eq(code, "102") || str_eq(code, "111") || str_eq(code, "112")
        || str_eq(code, "121") || str_eq(code, "6101") || str_eq(code, "6102") || str_eq(
        code,
        "6111",
    ) || str_eq(code, "6112") || str_eq(code, "6121") || str_eq(code, "7101") || str_eq(
        code,
        "7102",
    ) || str_eq(code, "7111") || str_eq(code, "7112") || str_eq(code, "7121") || str_eq(
        code,
        "X_AM",
    ) || str_eq(code, "X_PM") || str_eq(code, "X_10") || str_eq(code, "AG")
}

/// Whether `code` is one of the known repos codes.
fn code_is_repos(code: &str) -> (r: bool)
    ensures
        r == is_repos_code(code@),
{
    str_eq(code, "CN") || str_eq(code, "JC") || str_eq(code, "RH") || str_eq(code, "CH") || str_eq(
        code,
        "RR",
    ) || str_eq(code, "CV") || str_eq(code, "ZM")
}

impl ShiftCode {
    /// Upper-case `code` and accept it only if it is a known code; the
    /// rejection carries the upper-cased code back.
    pub fn new(code: &str) -> (r: Result<ShiftCode, ShiftCodeError>)
        ensures
            r is Ok <==> is_known_code(upper_seq(code@)),
            r matches Ok(sc) ==> sc@ == upper_seq(code@),
            r matches Err(ShiftCodeError::Unknown(s)) ==> s@ == upper_seq(code@),
    {
        let up = upper_string(code);
        if code_is_prestation(up.as_str()) || code_is_repos(up.as_str()) {
            Ok(ShiftCode { code: up })
        } else {
            Err(ShiftCodeError::Unknown(up))
        }
    }

    /// Upper-case `code` and accept it without checking the known lists
    /// (for custom codes configured outside the fixed set).
    pub fn new_unchecked(code: &str) -> (r: ShiftCode)
        ensures
            r@ == upper_seq(code@),
    {
        ShiftCode { code: upper_string(code) }
    }

    /// Whether `code` (as given, without upper-casing) is a known code.
    pub fn is_valid_code(code: &str) -> (r: bool)
        ensures
            r == is_known_code(code@),
    {
        code_is_prestation(code) || code_is_repos(code)
    }

    /// Whether this is a prestation (worked-shift) code.
    pub fn is_prestation(&self) -> (r: bool)
        ensures
            r == is_prestation_code(self@),
    {
        code_is_prestation(self.code.as_str())
    }

    /// Whether this is a repos (rest or leave) code.
    pub fn is_repos(&self) -> (r: bool)
        ensures
            r == is_repos_code(self@),
    {
        code_is_repos(self.code.as_str())
    }

    /// Whether this code is credited with a full night (eight hours).
    pub fn is_full_night(&self) -> (r: bool)
        ensures
            r == is_full_night_code(self@),
    {
        str_eq(self.code.as_str(), "121") || str_eq(self.code.as_str(), "6121") || str_eq(
            self.code.as_str(),
            "7121",
        )
    }

    /// Whether this code is credited with a partial night (two hours).
    pub fn is_partial_night(&self) -> (r: bool)
        ensures
            r == is_partial_night_code(self@),
    {
        let c = self.code.as_str();
        str_eq(c, "101") || str_eq(c, "102") || str_eq(c, "6101") || str_eq(c, "6102") || str_eq(
            c,
            "7101",
        ) || str_eq(c, "7102") || str_eq(c, "111") || str_eq(c, "112") || str_eq(c, "6111")
            || str_eq(c, "6112") || str_eq(c, "7111") || str_eq(c, "7112") || str_eq(c, "X_AM")
            || str_eq(c, "X_PM")
    }

    /// Whether this code marks work on a public holiday.
    pub fn is_holiday_code(&self) -> (r: bool)
        ensures
            r == is_holiday_work_code(self@),
    {
        let c = self.code.as_str();
        str_eq(c, "7101") || str_eq(c, "7102") || str_eq(c, "7111") || str_eq(c, "7112") || str_eq(
            c,
            "7121",
        )
    }

    /// Whether this is the strike code.
    pub fn is_strike(&self) -> (r: bool)
        ensures
            r == (self@ == "AG"@),
    {
        str_eq(self.code.as_str(), "AG")
    }

    /// Night hours credited to this code, in tenths of an hour.
    pub fn night_hours_tenths(&self) -> (r: i64)
        ensures
            r == night_hours_tenths_of(self@),
    {
        if self.is_full_night() {
            80
        } else if self.is_partial_night() {
            20
        } else {
            0
        }
    }

    /// The code as a string slice.
    pub fn as_str(&self) -> (r: &str)
        ensures
            r@ == self@,
    {
        self.code.as_str()
    }

    /// The code as its owned string.
    pub fn into_inner(self) -> (r: String)
        ensures
            r@ == self@,
    {
        self.code
    }
}

} // verus!
