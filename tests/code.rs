use pd_scheduler::code::{MonthYear, TimeOfDay, TimeRange};

fn range(sh: u32, sm: u32, eh: u32, em: u32) -> TimeRange {
    TimeRange {
        start: TimeOfDay { hour: sh, minute: sm },
        end: TimeOfDay { hour: eh, minute: em },
    }
}

fn table() -> Vec<(&'static str, u32, u32, u32, u32)> {
    vec![
        ("F187", 4, 30, 13, 30),
        ("F195", 4, 30, 14, 30),
        ("F201", 4, 30, 14, 30),
        ("F82", 4, 0, 13, 0),
        ("F96", 4, 0, 14, 0),
        ("G181", 5, 30, 14, 30),
        ("G186", 5, 30, 14, 30),
        ("G197", 5, 30, 15, 30),
        ("G3", 5, 0, 9, 0),
        ("G78", 5, 0, 14, 0),
        ("G82", 5, 0, 14, 0),
        ("G91", 5, 0, 15, 0),
        ("G96", 5, 0, 15, 0),
        ("H187", 6, 30, 15, 30),
        ("H201", 6, 30, 16, 30),
        ("H3", 6, 0, 10, 0),
        ("H72", 6, 0, 15, 0),
        ("H73", 6, 0, 15, 0),
        ("H96", 6, 0, 16, 0),
        ("I108", 7, 30, 11, 30),
        ("I177", 7, 30, 16, 30),
        ("I3", 7, 0, 11, 0),
        ("I74", 7, 0, 16, 0),
        ("I92", 7, 0, 17, 0),
        ("I94", 7, 0, 17, 0),
        ("I96", 7, 0, 17, 0),
        ("J108", 8, 30, 12, 30),
        ("J177", 8, 30, 17, 30),
        ("J178", 8, 30, 17, 30),
        ("J180", 8, 30, 17, 30),
        ("J3", 8, 0, 12, 0),
        ("J74", 8, 0, 17, 0),
        ("J92", 8, 0, 18, 0),
        ("J96", 8, 0, 18, 0),
        ("K108", 9, 30, 13, 30),
        ("K177", 9, 30, 18, 30),
        ("K3", 9, 0, 13, 0),
        ("K74", 9, 0, 18, 0),
        ("K78", 9, 0, 18, 0),
        ("K92", 9, 0, 19, 0),
        ("L179", 10, 30, 19, 30),
        ("L194", 10, 30, 20, 30),
        ("L3", 10, 0, 14, 0),
        ("M110", 11, 30, 15, 30),
        ("M181", 11, 30, 20, 30),
        ("M4", 11, 0, 15, 0),
        ("M75", 11, 0, 20, 0),
        ("M90", 11, 0, 21, 0),
        ("N188", 12, 30, 21, 30),
        ("N190", 12, 30, 21, 30),
        ("N80", 12, 0, 21, 0),
        ("O20", 13, 0, 17, 0),
        ("O95", 13, 0, 22, 0),
        ("O99", 13, 0, 22, 0),
        ("P37", 14, 0, 18, 0),
        ("Q165", 15, 30, 1, 30),
        ("Q179", 15, 30, 19, 30),
        ("Q31", 15, 0, 0, 0),
        ("R202", 16, 30, 20, 30),
        ("R90", 16, 0, 20, 0),
        ("S104", 17, 0, 21, 0),
        ("S209", 17, 30, 21, 30),
        ("T105", 18, 0, 22, 0),
        ("T77", 18, 0, 3, 0),
        ("V181", 20, 30, 5, 30),
        ("W3", 21, 0, 1, 0),
        ("W74", 21, 0, 6, 0),
    ]
}

#[test]
fn every_code_resolves_in_any_case() {
    for (code, sh, sm, eh, em) in table() {
        let expected = Some(range(sh, sm, eh, em));
        assert_eq!(TimeRange::find_code(code), expected, "{}", code);
        assert_eq!(TimeRange::find_code(&code.to_lowercase()), expected, "{}", code);
        assert_eq!(TimeRange::find_exact_code(code), expected, "{}", code);
    }
}

#[test]
fn mixed_case_code_resolves() {
    assert_eq!(TimeRange::find_code("q165"), Some(range(15, 30, 1, 30)));
    assert_eq!(TimeRange::find_code("g3"), Some(range(5, 0, 9, 0)));
}

#[test]
fn unknown_codes_are_not_found() {
    for code in ["", "X1", "F18", "F1877", "F 82", " F82", "F82 ", "G", "Z99", "F82F82"] {
        assert_eq!(TimeRange::find_code(code), None, "{:?}", code);
    }
}

#[test]
fn exact_lookup_does_not_fold_case() {
    assert_eq!(TimeRange::find_exact_code("f82"), None);
    assert_eq!(TimeRange::find_exact_code("F82"), Some(range(4, 0, 13, 0)));
}

#[test]
fn range_text_is_zero_padded() {
    assert_eq!(range(4, 0, 13, 0).to_string(), "04:00-13:00");
    assert_eq!(range(15, 30, 1, 30).to_string(), "15:30-01:30");
    assert_eq!(TimeRange::find_code("G3").unwrap().to_string(), "05:00-09:00");
    assert_eq!(TimeRange::find_code("Q31").unwrap().to_string(), "15:00-00:00");
}

#[test]
fn time_of_day_text() {
    assert_eq!(TimeOfDay::new(9, 5).to_string(), "09:05");
    assert_eq!(TimeOfDay::new(23, 59).to_string(), "23:59");
    assert_eq!(TimeOfDay::new(0, 0).to_string(), "00:00");
}

#[test]
fn month_bounds() {
    assert_eq!(MonthYear::Month.validate(0), Err(()));
    assert_eq!(MonthYear::Month.validate(1), Ok(1));
    assert_eq!(MonthYear::Month.validate(6), Ok(6));
    assert_eq!(MonthYear::Month.validate(12), Ok(12));
    assert_eq!(MonthYear::Month.validate(13), Err(()));
    assert_eq!(MonthYear::Month.validate(u32::MAX), Err(()));
}

#[test]
fn year_bounds() {
    assert_eq!(MonthYear::Year.validate(1999), Err(()));
    assert_eq!(MonthYear::Year.validate(2000), Ok(2000));
    assert_eq!(MonthYear::Year.validate(2024), Ok(2024));
    assert_eq!(MonthYear::Year.validate(3000), Ok(3000));
    assert_eq!(MonthYear::Year.validate(3001), Err(()));
    assert_eq!(MonthYear::Year.validate(0), Err(()));
}

#[test]
fn month_year_names() {
    assert_eq!(MonthYear::Month.name(), "month");
    assert_eq!(MonthYear::Year.name(), "year");
}
