use shiftplan::night_hours::NightHoursCategory;

#[test]
fn test_categories() {
    assert_eq!(NightHoursCategory::from_code("121"), NightHoursCategory::Full);
    assert_eq!(NightHoursCategory::from_code("101"), NightHoursCategory::Partial);
    assert_eq!(NightHoursCategory::from_code("AG"), NightHoursCategory::NoNight);
    assert_eq!(NightHoursCategory::from_code("RH"), NightHoursCategory::NoNight);
}

#[test]
fn test_hours() {
    assert_eq!(NightHoursCategory::Full.hours_tenths(), 80);
    assert_eq!(NightHoursCategory::Partial.hours_tenths(), 20);
    assert_eq!(NightHoursCategory::NoNight.hours_tenths(), 0);
}

#[test]
fn night_hours_presence() {
    assert!(NightHoursCategory::Full.has_night_hours());
    assert!(NightHoursCategory::Partial.has_night_hours());
    assert!(!NightHoursCategory::NoNight.has_night_hours());
    assert_eq!(NightHoursCategory::default(), NightHoursCategory::NoNight);
}
