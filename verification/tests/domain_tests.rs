use shiftplan::date::Date;
use shiftplan::personnel::{LeaveBalance, UserRole};
use shiftplan::shift_category::ShiftCategory;

#[test]
fn date_validation() {
    assert!(Date::from_ymd(2024, 2, 29).is_some());
    assert!(Date::from_ymd(2023, 2, 29).is_none());
    assert!(Date::from_ymd(1900, 2, 29).is_none());
    assert!(Date::from_ymd(2000, 2, 29).is_some());
    assert!(Date::from_ymd(2026, 4, 31).is_none());
    assert!(Date::from_ymd(2026, 0, 1).is_none());
    assert!(Date::from_ymd(2026, 13, 1).is_none());
    assert!(Date::from_ymd(0, 1, 1).is_none());
    assert!(Date::from_ymd(10000, 1, 1).is_none());
}

#[test]
fn date_day_number_round_trip() {
    let samples = [
        Date::from_ymd(1, 1, 1).unwrap(),
        Date::from_ymd(1999, 12, 31).unwrap(),
        Date::from_ymd(2024, 2, 29).unwrap(),
        Date::from_ymd(2026, 1, 12).unwrap(),
        Date::from_ymd(9999, 12, 31).unwrap(),
    ];
    for d in samples {
        let n = d.to_day_number();
        assert_eq!(Date::from_day_number(n), d);
    }
    assert_eq!(Date::from_ymd(1, 1, 1).unwrap().to_day_number(), 1);
    assert_eq!(Date::from_ymd(9999, 12, 31).unwrap().to_day_number(), 3652059);
}

#[test]
fn date_ordering_by_day_number() {
    let early = Date::from_ymd(2026, 1, 12).unwrap();
    let late = Date::from_ymd(2026, 2, 8).unwrap();
    assert!(early.on_or_before(&late));
    assert!(!late.on_or_before(&early));
    assert!(early.on_or_before(&early));
}

#[test]
fn countable_categories() {
    assert!(ShiftCategory::Standard.is_countable());
    assert!(ShiftCategory::Intermediate.is_countable());
    assert!(ShiftCategory::Night.is_countable());
    assert!(ShiftCategory::Partial.is_countable());
    assert!(ShiftCategory::Special.is_countable());
    assert!(ShiftCategory::Leave.is_countable());
    assert!(!ShiftCategory::Rest.is_countable());
}

#[test]
fn personnel_value_types() {
    let balance = LeaveBalance { entitlement: 25, carryover: 3, total: 28, used: 10, remaining: 18 };
    assert_eq!(balance.total, balance.entitlement + balance.carryover);
    assert_eq!(balance.remaining, balance.total - balance.used);
    assert_ne!(UserRole::Admin, UserRole::Agent);
    assert_eq!(UserRole::Planner, UserRole::Planner);
}
