use pd_scheduler::code::{MonthYear, TimeRange};
use pd_scheduler::schedule::{
    day_entry, entry_for_text, event_times, month_year_entry, month_year_from_text, shift_end_date,
    DayEntry, MonthYearEntry,
};

#[test]
fn entered_codes() {
    let f82 = TimeRange::find_code("F82").unwrap();
    assert_eq!(day_entry("  f82 \n"), DayEntry::Shift(f82));
    assert_eq!(day_entry("F82"), DayEntry::Shift(f82));
    assert_eq!(day_entry("\n"), DayEntry::Skip);
    assert_eq!(day_entry(" \t \r\n"), DayEntry::Skip);
    assert_eq!(day_entry("zz\n"), DayEntry::Again);
}

#[test]
fn trimmed_entries() {
    assert_eq!(entry_for_text(""), DayEntry::Skip);
    assert_eq!(entry_for_text(" F82"), DayEntry::Again);
    assert_eq!(entry_for_text("q165"), DayEntry::Shift(TimeRange::find_code("Q165").unwrap()));
}

fn value(e: MonthYearEntry) -> Option<u32> {
    match e {
        MonthYearEntry::Value(v) => Some(v),
        _ => None,
    }
}

fn out_of_range(e: MonthYearEntry) -> Option<u32> {
    match e {
        MonthYearEntry::OutOfRange(v) => Some(v),
        _ => None,
    }
}

fn not_a_number(e: MonthYearEntry) -> bool {
    matches!(e, MonthYearEntry::NotANumber(_))
}

#[test]
fn entered_months() {
    assert_eq!(value(month_year_entry("\n", 5, MonthYear::Month)), Some(5));
    assert_eq!(value(month_year_entry(" \t\n", 5, MonthYear::Month)), Some(5));
    assert_eq!(value(month_year_entry("12\n", 5, MonthYear::Month)), Some(12));
    assert_eq!(value(month_year_entry(" +7 ", 5, MonthYear::Month)), Some(7));
    assert_eq!(out_of_range(month_year_entry("13\n", 5, MonthYear::Month)), Some(13));
    assert_eq!(out_of_range(month_year_entry("0", 5, MonthYear::Month)), Some(0));
    assert!(not_a_number(month_year_entry("abc", 5, MonthYear::Month)));
    assert!(not_a_number(month_year_entry("-1", 5, MonthYear::Month)));
}

#[test]
fn not_a_number_keeps_the_reason() {
    match month_year_entry("abc", 5, MonthYear::Month) {
        MonthYearEntry::NotANumber(e) => assert_eq!(e.to_string(), "invalid digit found in string"),
        other => panic!("{:?}", other),
    }
}

#[test]
fn entered_years() {
    assert_eq!(value(month_year_entry("2024\n", 2030, MonthYear::Year)), Some(2024));
    assert_eq!(out_of_range(month_year_entry("1999", 2030, MonthYear::Year)), Some(1999));
    assert_eq!(out_of_range(month_year_entry("3001", 2030, MonthYear::Year)), Some(3001));
    assert_eq!(value(month_year_entry("", 2030, MonthYear::Year)), Some(2030));
    assert!(not_a_number(month_year_entry("99999999999", 2030, MonthYear::Year)));
}

#[test]
fn trimmed_numbers() {
    assert_eq!(value(month_year_from_text("7", 1, MonthYear::Month)), Some(7));
    assert!(not_a_number(month_year_from_text(" 7", 1, MonthYear::Month)));
    assert_eq!(value(month_year_from_text("", 1, MonthYear::Month)), Some(1));
    assert!(not_a_number(month_year_from_text("+", 1, MonthYear::Month)));
}

fn times(year: u32, month: u32, day: u32, code: &str) -> Option<(String, String)> {
    event_times(year, month, day, &TimeRange::find_code(code).unwrap())
}

fn pair(a: &str, b: &str) -> Option<(String, String)> {
    Some((a.to_string(), b.to_string()))
}

#[test]
fn day_shift_in_lisbon_time() {
    assert_eq!(
        times(2024, 7, 6, "F82"),
        pair("2024-07-06T04:00:00+01:00", "2024-07-06T13:00:00+01:00")
    );
    assert_eq!(
        times(2024, 1, 6, "F82"),
        pair("2024-01-06T04:00:00+00:00", "2024-01-06T13:00:00+00:00")
    );
}

#[test]
fn overnight_shift_ends_next_day() {
    assert_eq!(
        times(2024, 7, 6, "Q165"),
        pair("2024-07-06T15:30:00+01:00", "2024-07-07T01:30:00+01:00")
    );
    assert_eq!(
        times(2024, 8, 31, "Q165"),
        pair("2024-08-31T15:30:00+01:00", "2024-09-01T01:30:00+01:00")
    );
    assert_eq!(
        times(2023, 12, 31, "W74"),
        pair("2023-12-31T21:00:00+00:00", "2024-01-01T06:00:00+00:00")
    );
}

#[test]
fn skipped_clock_time_gives_none() {
    // Lisbon's clocks go from 01:00 to 02:00 on 31 March 2024.
    assert_eq!(times(2024, 3, 30, "Q165"), None);
    assert_eq!(
        times(2024, 3, 30, "F82"),
        pair("2024-03-30T04:00:00+00:00", "2024-03-30T13:00:00+00:00")
    );
}

#[test]
fn repeated_clock_time_takes_the_earlier() {
    // Lisbon's clocks go from 02:00 back to 01:00 on 27 October 2024.
    assert_eq!(
        times(2024, 10, 26, "Q165"),
        pair("2024-10-26T15:30:00+01:00", "2024-10-27T01:30:00+01:00")
    );
}

#[test]
fn end_dates() {
    let q165 = TimeRange::find_code("Q165").unwrap();
    let f82 = TimeRange::find_code("F82").unwrap();
    assert_eq!(shift_end_date(2024, 2, 28, &q165), (2024, 2, 29));
    assert_eq!(shift_end_date(2023, 2, 28, &q165), (2023, 3, 1));
    assert_eq!(shift_end_date(2024, 12, 31, &q165), (2025, 1, 1));
    assert_eq!(shift_end_date(2024, 12, 31, &f82), (2024, 12, 31));
    assert!(q165.is_overnight());
    assert!(!f82.is_overnight());
}
