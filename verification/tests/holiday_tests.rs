use shiftplan::date::Date;
use shiftplan::holiday_calculator::{Holiday, HolidayCalculator};

fn ymd(year: i32, month: u8, day: u8) -> Date {
    Date::from_ymd(year, month, day).unwrap()
}

#[test]
fn test_easter_2026() {
    // Easter 2026 falls on April 5
    let easter = HolidayCalculator::calculate_easter(2026);
    assert_eq!(easter, ymd(2026, 4, 5));
}

#[test]
fn test_easter_various_years() {
    // Known Easter dates for verification
    assert_eq!(HolidayCalculator::calculate_easter(2024), ymd(2024, 3, 31));
    assert_eq!(HolidayCalculator::calculate_easter(2025), ymd(2025, 4, 20));
}

#[test]
fn test_holidays_2026() {
    let holidays = HolidayCalculator::calculate_holidays(2026);

    // Should have 10 holidays
    assert_eq!(holidays.len(), 10);

    // Check Lundi de Pâques (Easter + 1 = April 6, 2026)
    let easter_monday = holidays.iter().find(|h| h.name == "Lundi de Pâques");
    assert!(easter_monday.is_some());
    assert_eq!(easter_monday.unwrap().date, ymd(2026, 4, 6));
}

#[test]
fn holidays_sorted_distinct_with_easter_offsets() {
    // Ten distinct dates, ascending, with the moveable ones at fixed
    // offsets from Easter Sunday (April 4 in 1999).
    let easter = HolidayCalculator::calculate_easter(1999);
    assert_eq!(easter, ymd(1999, 4, 4));
    let holidays = HolidayCalculator::calculate_holidays(1999);
    assert_eq!(holidays.len(), 10);
    for w in holidays.windows(2) {
        assert!(w[0].date.to_day_number() < w[1].date.to_day_number());
    }
    let moveable: Vec<&Holiday> = holidays.iter().filter(|h| h.is_moveable).collect();
    assert_eq!(moveable.len(), 3);
    let e = easter.to_day_number();
    assert_eq!(moveable[0].date.to_day_number(), e + 1);
    assert_eq!(moveable[1].date.to_day_number(), e + 39);
    assert_eq!(moveable[2].date.to_day_number(), e + 50);
    assert_eq!(moveable[0].name, "Lundi de Pâques");
    assert_eq!(moveable[1].name, "Ascension");
    assert_eq!(moveable[2].name, "Lundi de Pentecôte");
}

#[test]
fn holidays_full_list_2026() {
    let holidays = HolidayCalculator::calculate_holidays(2026);
    let expected = vec![
        (ymd(2026, 1, 1), "Nouvel An", false),
        (ymd(2026, 4, 6), "Lundi de Pâques", true),
        (ymd(2026, 5, 1), "Fête du Travail", false),
        (ymd(2026, 5, 14), "Ascension", true),
        (ymd(2026, 5, 25), "Lundi de Pentecôte", true),
        (ymd(2026, 7, 21), "Fête Nationale", false),
        (ymd(2026, 8, 15), "Assomption", false),
        (ymd(2026, 11, 1), "Toussaint", false),
        (ymd(2026, 11, 11), "Armistice", false),
        (ymd(2026, 12, 25), "Noël", false),
    ];
    assert_eq!(holidays.len(), expected.len());
    for (h, (date, name, moveable)) in holidays.iter().zip(expected.iter()) {
        assert_eq!(h.date, *date);
        assert_eq!(h.name, *name);
        assert_eq!(h.is_moveable, *moveable);
    }
}

#[test]
fn ascension_coincides_with_labour_day_2008() {
    // Easter 2008 is March 23, so Ascension falls on May 1: the list still
    // has ten entries, sorted, with Labour Day listed before Ascension.
    assert_eq!(HolidayCalculator::calculate_easter(2008), ymd(2008, 3, 23));
    let holidays = HolidayCalculator::calculate_holidays(2008);
    assert_eq!(holidays.len(), 10);
    for w in holidays.windows(2) {
        assert!(w[0].date.to_day_number() <= w[1].date.to_day_number());
    }
    assert_eq!(holidays[2].date, ymd(2008, 5, 1));
    assert_eq!(holidays[2].name, "Fête du Travail");
    assert_eq!(holidays[3].date, ymd(2008, 5, 1));
    assert_eq!(holidays[3].name, "Ascension");
}

#[test]
fn holiday_lookup() {
    let holidays = HolidayCalculator::calculate_holidays(2026);
    assert!(HolidayCalculator::is_holiday(ymd(2026, 7, 21), &holidays));
    assert!(!HolidayCalculator::is_holiday(ymd(2026, 7, 22), &holidays));
    assert_eq!(
        HolidayCalculator::get_holiday_name(ymd(2026, 12, 25), &holidays),
        Some("Noël")
    );
    assert_eq!(HolidayCalculator::get_holiday_name(ymd(2026, 12, 24), &holidays), None);
}
