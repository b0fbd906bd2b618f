//! The decisions of scheduling a month's weekend shifts: what an entered line
//! means, and the times of the event written for a shift.
use vstd::prelude::*;

use crate::calendar::{following_date, next_date, valid_date, LAST_DATE_YEAR};
use crate::code::{lemma_shift_range_wf, shift_range, upper_of, MonthYear, TimeRange};

verus! {

/// What `str::trim` leaves of a text.
pub uninterp spec fn trim_of(s: Seq<char>) -> Seq<char>;

/// A space, tab, line feed or carriage return: characters that Unicode
/// counts as white space.
pub open spec fn is_blank(c: char) -> bool {
    c == ' ' || c == '\t' || c == '\n' || c == '\r'
}

/// A text made of blanks only (the empty text included).
pub open spec fn all_blank(s: Seq<char>) -> bool {
    forall|k: int| 0 <= k < s.len() ==> is_blank(#[trigger] s[k])
}

/// Relies on `str::trim`: the text without its leading and trailing white
/// space (Unicode's `White_Space`, which holds space, tab, line feed and
/// carriage return), which depends on the characters alone.
#[verifier::external_body]
fn trimmed(s: &str) -> (r: &str)
    ensures
        r@ == trim_of(s@),
        all_blank(s@) ==> r@.len() == 0,
{
    s.trim()
}

/// Whether a character is a decimal digit.
pub open spec fn is_digit(c: char) -> bool {
    '0' <= c <= '9'
}

/// The number that a sequence of decimal digits writes.
pub open spec fn decimal_value(digits: Seq<char>) -> int
    decreases digits.len(),
{
    if digits.len() == 0 {
        0
    } else {
        let n = digits.len() - 1;
        decimal_value(digits.take(n)) * 10 + (digits[n] as int - '0' as int)
    }
}

/// The `u32` that a text writes as decimal digits after an optional `+`;
/// `None` for any other text and for a number beyond `u32::MAX`.
pub open spec fn u32_text_value(s: Seq<char>) -> Option<u32> {
    let digits = if s.len() > 0 && s[0] == '+' {
        s.skip(1)
    } else {
        s
    };
    if digits.len() > 0 && (forall|i: int| 0 <= i < digits.len() ==> is_digit(#[trigger] digits[i]))
        && decimal_value(digits) <= u32::MAX {
        Some(decimal_value(digits) as u32)
    } else {
        None
    }
}

#[verifier::external_type_specification]
#[verifier::external_body]
pub struct ExParseIntError(core::num::ParseIntError);

/// Relies on `str::parse::<u32>` (`u32::from_str`): an optional `+` and then
/// one or more decimal digits whose value fits a `u32`; anything else, white
/// space included, is an error.
#[verifier::external_body]
fn parse_u32(s: &str) -> (r: Result<u32, core::num::ParseIntError>)
    ensures
        r is Ok <==> u32_text_value(s@) is Some,
        r matches Ok(v) ==> u32_text_value(s@) == Some(v),
{
    s.parse::<u32>()
}

/// What a line entered for a weekend day asks for.
#[derive(Clone, Copy, Debug, PartialEq, Eq, Structural)]
pub enum DayEntry {
    /// Nothing was entered: no shift that day.
    Skip,
    /// A known code: the shift's time range.
    Shift(TimeRange),
    /// An unknown code: the day is asked for again.
    Again,
}

/// What a line entered for a weekend day asks for, once trimmed.
pub open spec fn day_entry_for(text: Seq<char>) -> DayEntry {
    if text.len() == 0 {
        DayEntry::Skip
    } else {
        match shift_range(upper_of(text)) {
            Some(range) => DayEntry::Shift(range),
            None => DayEntry::Again,
        }
    }
}

/// What a line entered for a weekend day asks for, once trimmed.
pub fn entry_for_text(text: &str) -> (r: DayEntry)
    ensures
        r == day_entry_for(text@),
        r matches DayEntry::Shift(range) ==> range.wf(),
{
    if text.unicode_len() == 0 {
        DayEntry::Skip
    } else {
        proof {
            lemma_shift_range_wf(upper_of(text@));
        }
        match TimeRange::find_code(text) {
            Some(range) => DayEntry::Shift(range),
            None => DayEntry::Again,
        }
    }
}

/// What the entered line `input` asks for a weekend day.
pub fn day_entry(input: &str) -> (r: DayEntry)
    ensures
        r == day_entry_for(trim_of(input@)),
        r matches DayEntry::Shift(range) ==> range.wf(),
        all_blank(input@) ==> r == DayEntry::Skip,
{
    entry_for_text(trimmed(input))
}

/// What a line entered for a month or a year gives.
#[derive(Debug)]
pub enum MonthYearEntry {
    /// The number entered, or the default for an empty line.
    Value(u32),
    /// The line is no number; why, as `str::parse` says.
    NotANumber(core::num::ParseIntError),
    /// A number that the month or year does not accept.
    OutOfRange(u32),
}

/// What a trimmed line gives for a month or a year: `default` for an empty
/// line, the number written when `part` accepts it, and otherwise whether the
/// line is no number or a number out of range.
pub open spec fn month_year_gives(
    text: Seq<char>,
    default: u32,
    part: MonthYear,
    r: MonthYearEntry,
) -> bool {
    if text.len() == 0 {
        r == MonthYearEntry::Value(default)
    } else {
        match u32_text_value(text) {
            Some(v) => if part.accepts(v as int) {
                r == MonthYearEntry::Value(v)
            } else {
                r == MonthYearEntry::OutOfRange(v)
            },
            None => r is NotANumber,
        }
    }
}

/// What a trimmed line gives for a month or a year, as
/// [`month_year_gives`] says.
pub fn month_year_from_text(text: &str, default: u32, part: MonthYear) -> (r: MonthYearEntry)
    ensures
        month_year_gives(text@, default, part, r),
{
    if text.unicode_len() == 0 {
        return MonthYearEntry::Value(default);
    }
    match parse_u32(text) {
        Ok(v) => match part.validate(v) {
            Ok(v) => MonthYearEntry::Value(v),
            Err(()) => MonthYearEntry::OutOfRange(v),
        },
        Err(e) => MonthYearEntry::NotANumber(e),
    }
}

/// What the entered line `input` gives for a month or a year.
pub fn month_year_entry(input: &str, default: u32, part: MonthYear) -> (r: MonthYearEntry)
    ensures
        month_year_gives(trim_of(input@), default, part, r),
        all_blank(input@) ==> r == MonthYearEntry::Value(default),
{
    month_year_from_text(trimmed(input), default, part)
}

/// The instant at which Lisbon's clocks show `year-month-day hour:minute`,
/// written in RFC 3339 with Lisbon's offset then; the earlier one where the
/// clocks show that time twice, and `None` where they skip it.
pub uninterp spec fn lisbon_rfc3339(year: int, month: int, day: int, hour: int, minute: int) -> Option<
    Seq<char>,
>;

/// Relies on chrono's `NaiveDate::from_ymd_opt` and `NaiveTime::from_hms_opt`
/// (a value for every valid date up to year 262142 and every time of day), on
/// chrono-tz's `Europe::Lisbon` through `TimeZone::from_local_datetime` and
/// `MappedLocalTime::earliest`, and on `DateTime::to_rfc3339`; the text
/// depends on the arguments alone.
#[verifier::external_body]
fn lisbon_time(year: i32, month: u32, day: u32, hour: u32, minute: u32) -> (r: Option<String>)
    requires
        valid_date(year as int, month as int, day as int),
        hour < 24,
        minute < 60,
    ensures
        r matches Some(t) ==> lisbon_rfc3339(
            year as int,
            month as int,
            day as int,
            hour as int,
            minute as int,
        ) == Some(t@),
        r is None ==> lisbon_rfc3339(
            year as int,
            month as int,
            day as int,
            hour as int,
            minute as int,
        ) is None,
{
    let date = chrono::NaiveDate::from_ymd_opt(year, month, day).unwrap();
    let time = chrono::NaiveTime::from_hms_opt(hour, minute, 0).unwrap();
    let local = chrono::NaiveDateTime::new(date, time);
    match chrono::TimeZone::from_local_datetime(&chrono_tz::Europe::Lisbon, &local).earliest() {
        Some(t) => Some(t.to_rfc3339()),
        None => None,
    }
}

/// The date on which a shift of `range` that starts on `year-month-day` ends:
/// the next date for a shift that runs past midnight, else the same date.
pub open spec fn end_date(year: int, month: int, day: int, range: TimeRange) -> (int, int, int) {
    if range.overnight() {
        next_date(year, month, day)
    } else {
        (year, month, day)
    }
}

/// A shift on `year-month-day` can be written: a valid date, with a next date
/// when the shift runs past midnight.
pub open spec fn schedulable(year: int, month: int, day: int, range: TimeRange) -> bool {
    &&& valid_date(year, month, day)
    &&& range.wf()
    &&& range.overnight() ==> (year < LAST_DATE_YEAR || month < 12 || day < 31)
}

/// The date on which a shift of `range` that starts on `year-month-day` ends.
pub fn shift_end_date(year: u32, month: u32, day: u32, range: &TimeRange) -> (r: (u32, u32, u32))
    requires
        schedulable(year as int, month as int, day as int, *range),
    ensures
        (r.0 as int, r.1 as int, r.2 as int) == end_date(year as int, month as int, day as int, *range),
        valid_date(r.0 as int, r.1 as int, r.2 as int),
{
    if range.is_overnight() {
        following_date(year, month, day)
    } else {
        (year, month, day)
    }
}

/// The start of the calendar event for a shift of `range` on `year-month-day`.
pub open spec fn event_start(year: int, month: int, day: int, range: TimeRange) -> Option<Seq<char>> {
    lisbon_rfc3339(year, month, day, range.start.hour as int, range.start.minute as int)
}

/// The end of the calendar event for a shift of `range` that starts on
/// `year-month-day`.
pub open spec fn event_end(year: int, month: int, day: int, range: TimeRange) -> Option<Seq<char>> {
    let (y, m, d) = end_date(year, month, day, range);
    lisbon_rfc3339(y, m, d, range.end.hour as int, range.end.minute as int)
}

/// The start and end of the calendar event for a shift of `range` that starts
/// on `year-month-day`, as Lisbon's clocks show them, in RFC 3339. The end is
/// on the next date for a shift that runs past midnight. `None` when Lisbon's
/// clocks skip either time.
pub fn event_times(year: u32, month: u32, day: u32, range: &TimeRange) -> (r: Option<(String, String)>)
    requires
        schedulable(year as int, month as int, day as int, *range),
    ensures
        r is Some <==> event_start(year as int, month as int, day as int, *range) is Some
            && event_end(year as int, month as int, day as int, *range) is Some,
        r matches Some(p) ==> event_start(year as int, month as int, day as int, *range) == Some(
            p.0@,
        ) && event_end(year as int, month as int, day as int, *range) == Some(p.1@),
{
    let start = lisbon_time(year as i32, month, day, range.start.hour, range.start.minute);
    let (ey, em, ed) = shift_end_date(year, month, day, range);
    let end = lisbon_time(ey as i32, em, ed, range.end.hour, range.end.minute);
    match (start, end) {
        (Some(s), Some(e)) => Some((s, e)),
        _ => None,
    }
}

} // verus!
