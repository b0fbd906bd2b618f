//! The weekend days of a month, found with chrono's calendar.
use vstd::prelude::*;

verus! {

/// The last year that chrono's `NaiveDate` can hold.
pub const LAST_DATE_YEAR: u32 = 262142;

/// A Gregorian leap year.
pub open spec fn is_leap_year(year: int) -> bool {
    (year % 4 == 0 && year % 100 != 0) || year % 400 == 0
}

/// The number of days in month `month` (1 to 12) of `year`.
pub open spec fn month_length(year: int, month: int) -> int {
    if month == 2 {
        if is_leap_year(year) {
            29
        } else {
            28
        }
    } else if month == 4 || month == 6 || month == 9 || month == 11 {
        30
    } else {
        31
    }
}

/// A day of a month of a year from 0 on that chrono's `NaiveDate` can hold.
pub open spec fn valid_date(year: int, month: int, day: int) -> bool {
    &&& 0 <= year <= LAST_DATE_YEAR
    &&& 1 <= month <= 12
    &&& 1 <= day <= month_length(year, month)
}

/// The calendar date just before `year-month-day`, as (year, month, day).
pub open spec fn previous_date(year: int, month: int, day: int) -> (int, int, int) {
    if day > 1 {
        (year, month, day - 1)
    } else if month > 1 {
        (year, month - 1, month_length(year, month - 1))
    } else {
        (year - 1, 12, 31)
    }
}

/// Relies on chrono's `NaiveDate::from_ymd_opt`, which gives a date for every
/// valid day of the years up to 262142, and on `NaiveDate::pred_opt`, which
/// gives the previous calendar date and fails only on the first date chrono
/// can hold (far before year 0); year, month and day are read back through
/// `Datelike`.
#[verifier::external_body]
fn day_before(year: i32, month: u32, day: u32) -> (r: (i32, u32, u32))
    requires
        valid_date(year as int, month as int, day as int),
        year > 0 || month > 1 || day > 1,
    ensures
        (r.0 as int, r.1 as int, r.2 as int) == previous_date(year as int, month as int, day as int),
{
    let d = chrono::NaiveDate::from_ymd_opt(year, month, day).unwrap().pred_opt().unwrap();
    (chrono::Datelike::year(&d), chrono::Datelike::month(&d), chrono::Datelike::day(&d))
}

/// The day of the week of a Gregorian date, from Monday as 0 to Sunday as 6
/// (Zeller's congruence, with January and February counted as months 13 and
/// 14 of the year before).
pub open spec fn weekday_of(year: int, month: int, day: int) -> u32 {
    let (m, y) = if month < 3 {
        (month + 12, year - 1)
    } else {
        (month, year)
    };
    // 0 is Saturday here.
    let h = (day + (13 * (m + 1)) / 5 + y + y / 4 - y / 100 + y / 400) % 7;
    ((h + 5) % 7) as u32
}

/// The calendar date just after `year-month-day`, as (year, month, day).
pub open spec fn next_date(year: int, month: int, day: int) -> (int, int, int) {
    if day < month_length(year, month) {
        (year, month, day + 1)
    } else if month < 12 {
        (year, month + 1, 1)
    } else {
        (year + 1, 1, 1)
    }
}

/// Relies on chrono's `NaiveDate::from_ymd_opt`, which gives a date for every
/// valid day of the years up to 262142, and on `NaiveDate::succ_opt`, which
/// gives the next calendar date and fails only on the last date chrono can
/// hold; year, month and day are read back through `Datelike`.
#[verifier::external_body]
fn day_after(year: i32, month: u32, day: u32) -> (r: (i32, u32, u32))
    requires
        valid_date(year as int, month as int, day as int),
        year < LAST_DATE_YEAR || month < 12 || day < 31,
    ensures
        (r.0 as int, r.1 as int, r.2 as int) == next_date(year as int, month as int, day as int),
{
    let d = chrono::NaiveDate::from_ymd_opt(year, month, day).unwrap().succ_opt().unwrap();
    (chrono::Datelike::year(&d), chrono::Datelike::month(&d), chrono::Datelike::day(&d))
}

/// The date after `year-month-day`, as (year, month, day).
pub(crate) fn following_date(year: u32, month: u32, day: u32) -> (r: (u32, u32, u32))
    requires
        valid_date(year as int, month as int, day as int),
        year < LAST_DATE_YEAR || month < 12 || day < 31,
    ensures
        (r.0 as int, r.1 as int, r.2 as int) == next_date(year as int, month as int, day as int),
        valid_date(r.0 as int, r.1 as int, r.2 as int),
{
    let (y, m, d) = day_after(year as i32, month, day);
    (y as u32, m, d)
}

/// Relies on chrono's `NaiveDate::from_ymd_opt` (a date for every valid day of
/// the years up to 262142, in the proleptic Gregorian calendar),
/// `Datelike::weekday` and `Weekday::num_days_from_monday`, which numbers the
/// seven days from Monday as 0.
#[verifier::external_body]
fn weekday_number(year: i32, month: u32, day: u32) -> (r: u32)
    requires
        valid_date(year as int, month as int, day as int),
    ensures
        r == weekday_of(year as int, month as int, day as int),
{
    let d = chrono::NaiveDate::from_ymd_opt(year, month, day).unwrap();
    chrono::Datelike::weekday(&d).num_days_from_monday()
}

/// Saturday or Sunday, as numbered from Monday as 0.
pub open spec fn is_weekend(weekday: int) -> bool {
    weekday == 5 || weekday == 6
}

/// The days, counted from 1, that fall on a weekend, where `weekdays[i]` is the
/// weekday of day `i + 1`; in ascending order.
pub open spec fn weekend_days(weekdays: Seq<u32>) -> Seq<u32>
    decreases weekdays.len(),
{
    if weekdays.len() == 0 {
        seq![]
    } else {
        let n = weekdays.len() - 1;
        let earlier = weekend_days(weekdays.take(n));
        if is_weekend(weekdays[n] as int) {
            earlier.push((n + 1) as u32)
        } else {
            earlier
        }
    }
}

/// The weekday of each day of a month, day 1 first.
pub open spec fn month_weekdays(year: int, month: int) -> Seq<u32> {
    Seq::new(month_length(year, month) as nat, |i: int| weekday_of(year, month, i + 1))
}

/// The listed days ascend strictly, each one is a day of `weekdays` that falls
/// on a weekend, and every such day is listed.
pub proof fn lemma_weekend_days_exact(weekdays: Seq<u32>)
    requires
        weekdays.len() < u32::MAX,
    ensures
        forall|i: int, j: int|
            0 <= i < j < weekend_days(weekdays).len() ==> weekend_days(weekdays)[i]
                < weekend_days(weekdays)[j],
        forall|i: int|
            0 <= i < weekend_days(weekdays).len() ==> 1 <= #[trigger] weekend_days(weekdays)[i]
                <= weekdays.len() && is_weekend(weekdays[weekend_days(weekdays)[i] - 1] as int),
        forall|d: int|
            1 <= d <= weekdays.len() && is_weekend(#[trigger] weekdays[d - 1] as int)
                ==> weekend_days(weekdays).contains(d as u32),
    decreases weekdays.len(),
{
    if weekdays.len() > 0 {
        let n = weekdays.len() - 1;
        let earlier = weekdays.take(n);
        lemma_weekend_days_exact(earlier);
        let r = weekend_days(weekdays);
        let e = weekend_days(earlier);
        assert forall|d: int| 1 <= d <= weekdays.len() && is_weekend(#[trigger] weekdays[d - 1] as int)
            implies r.contains(d as u32) by {
            if d <= n {
                assert(earlier[d - 1] == weekdays[d - 1]);
                let k = choose|k: int| 0 <= k < e.len() && e[k] == d as u32;
                assert(r[k] == d as u32);
            } else {
                assert(r[r.len() - 1] == d as u32);
            }
        }
    }
}

/// The weekend days of a month ascend strictly, each falls on a Saturday or a
/// Sunday of that month, and no such day of the month is missing.
pub proof fn lemma_month_weekends(year: int, month: int)
    requires
        1 <= month <= 12,
    ensures
        forall|i: int, j: int|
            0 <= i < j < weekend_days(month_weekdays(year, month)).len() ==> weekend_days(
                month_weekdays(year, month),
            )[i] < weekend_days(month_weekdays(year, month))[j],
        forall|i: int|
            0 <= i < weekend_days(month_weekdays(year, month)).len() ==> {
                let d = #[trigger] weekend_days(month_weekdays(year, month))[i];
                1 <= d <= month_length(year, month) && is_weekend(
                    weekday_of(year, month, d as int) as int,
                )
            },
        forall|d: int|
            1 <= d <= month_length(year, month) && is_weekend(
                #[trigger] weekday_of(year, month, d) as int,
            ) ==> weekend_days(month_weekdays(year, month)).contains(d as u32),
{
    let w = month_weekdays(year, month);
    lemma_weekend_days_exact(w);
    assert forall|d: int|
        1 <= d <= month_length(year, month) && is_weekend(
            #[trigger] weekday_of(year, month, d) as int,
        ) implies weekend_days(w).contains(d as u32) by {
        assert(w[d - 1] == weekday_of(year, month, d));
    }
}

/// February's weekend days include the 29th exactly when the year is a leap
/// year and that day falls on a Saturday or a Sunday.
pub proof fn lemma_february_29(year: int)
    ensures
        weekend_days(month_weekdays(year, 2)).contains(29u32) <==> is_leap_year(year)
            && is_weekend(weekday_of(year, 2, 29) as int),
{
    lemma_month_weekends(year, 2);
    let r = weekend_days(month_weekdays(year, 2));
    if r.contains(29u32) {
        let k = choose|k: int| 0 <= k < r.len() && r[k] == 29u32;
        assert(1 <= r[k] <= month_length(year, 2));
    }
}

/// The days, counted from 1, whose weekday in `weekdays` (the weekday of day
/// `i + 1` at index `i`, Monday as 0) is Saturday or Sunday, in ascending order.
pub fn weekend_days_of(weekdays: &Vec<u32>) -> (r: Vec<u32>)
    requires
        weekdays.len() < u32::MAX,
    ensures
        r@ == weekend_days(weekdays@),
{
    let mut r: Vec<u32> = Vec::new();
    let mut i: usize = 0;
    while i < weekdays.len()
        invariant
            i <= weekdays.len() < u32::MAX,
            r@ == weekend_days(weekdays@.take(i as int)),
        decreases weekdays.len() - i,
    {
        assert(weekdays@.take(i + 1).take(i as int) =~= weekdays@.take(i as int));
        let w = weekdays[i];
        if w == 5 || w == 6 {
            r.push((i + 1) as u32);
        }
        i += 1;
    }
    assert(weekdays@.take(i as int) =~= weekdays@);
    r
}

/// The month after `month` of `year`, as (year, month): January of the next
/// year after December.
pub fn next_month(year: u32, month: u32) -> (r: (u32, u32))
    requires
        1 <= month <= 12,
        month == 12 ==> year < u32::MAX,
    ensures
        month == 12 ==> r.0 == year + 1 && r.1 == 1,
        month < 12 ==> r.0 == year && r.1 == month + 1,
{
    if month == 12 {
        (year + 1, 1)
    } else {
        (year, month + 1)
    }
}

/// The days of `month` (1 to 12) of `year` that fall on a Saturday or a
/// Sunday, in ascending order. The month ends on the day before the first day
/// of the next month.
pub fn get_weekends(month: u32, year: u32) -> (r: Vec<u32>)
    requires
        1 <= month <= 12,
        year < LAST_DATE_YEAR || (year == LAST_DATE_YEAR && month < 12),
    ensures
        r@ == weekend_days(month_weekdays(year as int, month as int)),
{
    let (next_year, next_mon) = next_month(year, month);
    let last = day_before(next_year as i32, next_mon, 1);
    let last_day = last.2;
    assert(last_day == month_length(year as int, month as int));
    let mut weekdays: Vec<u32> = Vec::new();
    let mut day: u32 = 1;
    while day <= last_day
        invariant
            1 <= month <= 12,
            year <= LAST_DATE_YEAR,
            last_day == month_length(year as int, month as int),
            1 <= day <= last_day + 1,
            weekdays@ == month_weekdays(year as int, month as int).take(day - 1),
        decreases last_day + 1 - day,
    {
        let w = weekday_number(year as i32, month, day);
        weekdays.push(w);
        assert(weekdays@ =~= month_weekdays(year as int, month as int).take(day as int));
        day += 1;
    }
    assert(weekdays@ =~= month_weekdays(year as int, month as int));
    weekend_days_of(&weekdays)
}

} // verus!
