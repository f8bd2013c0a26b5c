use shiftplan::shift_code::{ShiftCode, ShiftCodeError};

#[test]
fn test_valid_codes() {
    assert!(ShiftCode::new("101").is_ok());
    assert!(ShiftCode::new("CN").is_ok());
    assert!(ShiftCode::new("121").is_ok());
}

#[test]
fn test_invalid_code() {
    assert!(ShiftCode::new("INVALID").is_err());
}

#[test]
fn test_night_hours() {
    assert_eq!(ShiftCode::new("121").unwrap().night_hours_tenths(), 80);
    assert_eq!(ShiftCode::new("101").unwrap().night_hours_tenths(), 20);
    assert_eq!(ShiftCode::new("AG").unwrap().night_hours_tenths(), 0);
    assert_eq!(ShiftCode::new("RH").unwrap().night_hours_tenths(), 0);
}

#[test]
fn test_holiday_codes() {
    assert!(ShiftCode::new("7101").unwrap().is_holiday_code());
    assert!(!ShiftCode::new("101").unwrap().is_holiday_code());
}

#[test]
fn codes_are_uppercased() {
    // Construction upper-cases, so lower-case input matches the known lists.
    let code = ShiftCode::new("rh").unwrap();
    assert_eq!(code.as_str(), "RH");
    assert!(code.is_repos());
    assert_eq!(ShiftCode::new_unchecked("x_am").as_str(), "X_AM");
    assert_eq!(ShiftCode::new_unchecked("zz9").into_inner(), "ZZ9");
}

#[test]
fn rejection_carries_uppercased_code() {
    match ShiftCode::new("bogus") {
        Err(ShiftCodeError::Unknown(code)) => assert_eq!(code, "BOGUS"),
        _ => panic!("expected an unknown-code rejection"),
    }
}

#[test]
fn code_classification() {
    let night = ShiftCode::new("6121").unwrap();
    assert!(night.is_prestation());
    assert!(!night.is_repos());
    assert!(night.is_full_night());
    assert!(!night.is_partial_night());
    assert!(!night.is_strike());

    let strike = ShiftCode::new("AG").unwrap();
    assert!(strike.is_strike());
    assert!(strike.is_prestation());
    assert!(!strike.is_partial_night());

    let rest = ShiftCode::new("ZM").unwrap();
    assert!(rest.is_repos());
    assert!(!rest.is_prestation());

    assert!(ShiftCode::is_valid_code("X_10"));
    assert!(!ShiftCode::is_valid_code("x_10"));
}
