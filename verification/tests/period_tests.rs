use shiftplan::date::Date;
use shiftplan::period_calculator::{CalculatedPeriod, PeriodCalculator, PeriodConfig};

fn ymd(year: i32, month: u8, day: u8) -> Date {
    Date::from_ymd(year, month, day).unwrap()
}

#[test]
fn test_calculate_periods_2026() {
    let calculator = PeriodCalculator::new();
    let periods = calculator.calculate_periods(2026);

    assert_eq!(periods.len(), 13);

    // P1 should start on anchor date
    assert_eq!(periods[0].start_date, ymd(2026, 1, 12));

    // Each period is 28 days
    for period in &periods {
        assert_eq!(
            period.end_date.to_day_number() - period.start_date.to_day_number(),
            27 // 0-indexed difference
        );
    }
}

#[test]
fn test_period_for_date() {
    let calculator = PeriodCalculator::new();

    // Test anchor date (should be P1)
    let date = ymd(2026, 1, 12);
    let period = calculator.get_period_for_date(date).unwrap();
    assert_eq!(period.number, 1);

    // Test end of P1 (28 days later - 1)
    let date = ymd(2026, 2, 8);
    let period = calculator.get_period_for_date(date).unwrap();
    assert_eq!(period.number, 1);
}

#[test]
fn periods_contiguous_numbered_with_quota() {
    let calculator = PeriodCalculator::new();
    let periods = calculator.calculate_periods(2030);
    assert_eq!(periods.len(), 13);
    for (i, p) in periods.iter().enumerate() {
        assert_eq!(p.number as usize, i + 1);
        assert_eq!(p.hour_quota, 160);
    }
    for w in periods.windows(2) {
        assert_eq!(
            w[1].start_date.to_day_number(),
            w[0].end_date.to_day_number() + 1
        );
    }
}

#[test]
fn period_grid_drifts_against_civil_years() {
    // The 364-day cycle falls short of the civil year, so later cycles
    // start earlier and earlier in their civil year.
    let calculator = PeriodCalculator::new();
    assert_eq!(calculator.calculate_periods(2027)[0].start_date, ymd(2027, 1, 11));
    assert_eq!(calculator.calculate_periods(2035)[0].start_date, ymd(2035, 1, 1));
    // One cycle further on, the grid starts in the previous civil year.
    assert_eq!(calculator.calculate_periods(2036)[0].start_date, ymd(2035, 12, 31));
}

#[test]
fn period_dates_round_trip() {
    let calculator = PeriodCalculator::new();
    let periods = calculator.calculate_periods(2026);
    let p5 = periods[4];
    let dates = calculator.get_period_dates(&p5);
    assert_eq!(dates.len(), 28);
    assert_eq!(dates[0], p5.start_date);
    assert_eq!(dates[27], p5.end_date);
    for d in dates {
        let found = calculator.get_period_for_date(d).unwrap();
        assert_eq!(found.number, p5.number);
        assert_eq!(found.start_date, p5.start_date);
        assert_eq!(found.end_date, p5.end_date);
    }
}

#[test]
fn structural_gap_date_has_no_period() {
    // By 2328 the grid has drifted two civil years ahead: December 31,
    // 2328 belongs to the cycle projected for 2330, which the search
    // around the date's own year never looks at.
    let calculator = PeriodCalculator::new();
    assert!(calculator.get_period_for_date(ymd(2328, 12, 31)).is_none());
    // The day before still falls in a cycle within the window.
    assert!(calculator.get_period_for_date(ymd(2328, 12, 30)).is_some());
}

#[test]
fn cross_month_detection() {
    let calculator = PeriodCalculator::new();
    let periods = calculator.calculate_periods(2026);
    // P1 runs January 12 to February 8: cross-month.
    assert!(calculator.is_cross_month(&periods[0]));
    let same_month = CalculatedPeriod {
        number: 1,
        start_date: ymd(2026, 3, 1),
        end_date: ymd(2026, 3, 28),
        hour_quota: 160,
    };
    assert!(!calculator.is_cross_month(&same_month));
}

#[test]
fn custom_anchor_starts_first_period() {
    let anchor = ymd(2020, 3, 2);
    let calculator = PeriodCalculator::with_anchor(anchor);
    let periods = calculator.calculate_periods(2020);
    assert_eq!(periods[0].start_date, anchor);
    assert_eq!(periods[12].end_date.to_day_number(), anchor.to_day_number() + 363);
}

#[test]
fn custom_config_shapes_grid() {
    let config = PeriodConfig {
        anchor_date: ymd(2025, 1, 6),
        days_per_period: 14,
        periods_per_year: 26,
    };
    let calculator = PeriodCalculator::with_config(config);
    let periods = calculator.calculate_periods(2025);
    assert_eq!(periods.len(), 26);
    assert_eq!(
        periods[1].start_date.to_day_number() - periods[0].start_date.to_day_number(),
        14
    );
}
