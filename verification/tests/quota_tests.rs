use shiftplan::quota_validator::{PeriodBalance, QuotaError, QuotaValidator, QuotaWarning};

fn create_test_balance(
    ch: i32,
    rh: i32,
    cv: i32,
    rr: i32,
    hours: f64,
    holidays_worked: i32,
) -> PeriodBalance {
    PeriodBalance {
        total_hours_tenths: (hours * 10.0).round() as i64,
        night_hours_tenths: 0,
        ch_count: ch,
        rh_count: rh,
        cv_count: cv,
        rr_count: rr,
        cn_count: 0,
        jc_count: 0,
        holidays_worked,
    }
}

#[test]
fn test_valid_balance() {
    let validator = QuotaValidator::new();
    let balance = create_test_balance(4, 4, 1, 0, 160.0, 0);
    let result = validator.validate(&balance);

    assert!(result.is_valid);
    assert!(result.errors.is_empty());
    assert!(result.warnings.is_empty());
}

#[test]
fn test_hours_exceeded() {
    let validator = QuotaValidator::new();
    let balance = create_test_balance(4, 4, 1, 0, 168.0, 0);
    let result = validator.validate(&balance);

    assert!(!result.is_valid);
    assert!(matches!(result.errors[0], QuotaError::HoursExceeded { .. }));
}

#[test]
fn test_missing_recovery() {
    let validator = QuotaValidator::new();
    let balance = create_test_balance(4, 4, 1, 0, 160.0, 2);
    let result = validator.validate(&balance);

    assert!(!result.is_valid);
    assert!(matches!(result.errors[0], QuotaError::MissingRecoveryDay { .. }));
}

#[test]
fn test_quota_warnings() {
    let validator = QuotaValidator::new();
    let balance = create_test_balance(3, 5, 0, 0, 160.0, 0);
    let result = validator.validate(&balance);

    assert!(result.is_valid); // Warnings don't make it invalid
    assert_eq!(result.warnings.len(), 3);
}

#[test]
fn hours_exceeded_carries_exact_values() {
    // 168.0 hours against the 160.0 ceiling: exactly one error, with both
    // quantities (in tenths of an hour) carried in it.
    let validator = QuotaValidator::new();
    let balance = create_test_balance(4, 4, 1, 0, 168.0, 0);
    let result = validator.validate(&balance);
    assert_eq!(result.errors.len(), 1);
    assert_eq!(result.errors[0], QuotaError::HoursExceeded { actual: 1680, max: 1600 });
    assert!(result.warnings.is_empty());
}

#[test]
fn missing_recovery_carries_exact_values() {
    let validator = QuotaValidator::new();
    let balance = create_test_balance(4, 4, 1, 0, 160.0, 2);
    let result = validator.validate(&balance);
    assert_eq!(result.errors.len(), 1);
    assert_eq!(
        result.errors[0],
        QuotaError::MissingRecoveryDay { holidays_worked: 2, rr_count: 0 }
    );
}

#[test]
fn warnings_carry_exact_values_in_order() {
    let validator = QuotaValidator::new();
    let balance = create_test_balance(3, 5, 0, 0, 160.0, 0);
    let result = validator.validate(&balance);
    assert_eq!(
        result.warnings,
        vec![
            QuotaWarning::ChCountMismatch { actual: 3, expected: 4 },
            QuotaWarning::RhCountMismatch { actual: 5, expected: 4 },
            QuotaWarning::CvCountMismatch { actual: 0, expected: 1 },
        ]
    );
    assert!(result.is_valid);
    assert!(!result.has_errors());
    assert!(result.has_warnings());
}

#[test]
fn hours_ceiling_is_inclusive() {
    // Exactly 160.0 hours is allowed; one tenth more is not.
    let validator = QuotaValidator::new();
    assert!(validator.is_valid(&create_test_balance(4, 4, 1, 0, 160.0, 0)));
    let over = PeriodBalance { total_hours_tenths: 1601, ..create_test_balance(4, 4, 1, 0, 0.0, 0) };
    assert!(!validator.is_valid(&over));
}

#[test]
fn recovery_surplus_is_accepted() {
    // Matching or surplus recovery days are fine; only a deficit errs.
    let validator = QuotaValidator::new();
    assert!(validator.is_valid(&create_test_balance(4, 4, 1, 2, 160.0, 2)));
    assert!(validator.is_valid(&create_test_balance(4, 4, 1, 3, 160.0, 2)));
    assert!(!validator.is_valid(&create_test_balance(4, 4, 1, 1, 160.0, 2)));
}

#[test]
fn both_hard_rules_reported_together() {
    let validator = QuotaValidator::new();
    let balance = create_test_balance(4, 4, 1, 0, 170.0, 1);
    let result = validator.validate(&balance);
    assert_eq!(
        result.errors,
        vec![
            QuotaError::HoursExceeded { actual: 1700, max: 1600 },
            QuotaError::MissingRecoveryDay { holidays_worked: 1, rr_count: 0 },
        ]
    );
    assert!(!result.is_valid);
}

#[test]
fn custom_thresholds_apply() {
    let validator = QuotaValidator {
        expected_ch: 2,
        expected_rh: 3,
        expected_cv: 0,
        max_hours_tenths: 800,
    };
    let balance = create_test_balance(2, 3, 0, 0, 80.0, 0);
    let result = validator.validate(&balance);
    assert!(result.is_valid);
    assert!(result.warnings.is_empty());
    let over = create_test_balance(2, 3, 0, 0, 80.5, 0);
    assert!(!validator.is_valid(&over));
}
