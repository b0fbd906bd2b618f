//! The fixed table of shift codes and the time ranges they stand for.
use vstd::prelude::*;

verus! {

/// Smallest year accepted by [`MonthYear::Year`].
pub const FIRST_YEAR: u32 = 2000;

/// Largest year accepted by [`MonthYear::Year`].
pub const LAST_YEAR: u32 = 3000;

/// Which part of a date an entered number stands for.
#[derive(Clone, Copy, Debug, PartialEq, Eq, Structural)]
pub enum MonthYear {
    Month,
    Year,
}

impl MonthYear {
    /// Whether `val` is an acceptable value for this part of a date.
    pub open spec fn accepts(self, val: int) -> bool {
        match self {
            MonthYear::Month => 1 <= val <= 12,
            MonthYear::Year => FIRST_YEAR <= val <= LAST_YEAR,
        }
    }

    /// Returns `val` unchanged when it lies in the inclusive range of this
    /// part of a date (a month in `1..=12`, a year in `2000..=3000`).
    pub fn validate(&self, val: u32) -> (r: Result<u32, ()>)
        ensures
            self.accepts(val as int) ==> r == Ok::<u32, ()>(val),
            !self.accepts(val as int) ==> r == Err::<u32, ()>(()),
    {
        match *self {
            MonthYear::Month => {
                if 1 <= val && val <= 12 {
                    Ok(val)
                } else {
                    Err(())
                }
            },
            MonthYear::Year => {
                if FIRST_YEAR <= val && val <= LAST_YEAR {
                    Ok(val)
                } else {
                    Err(())
                }
            },
        }
    }

    /// The word that names this part of a date in prompts.
    pub fn name(&self) -> (r: &'static str)
        ensures
            *self == MonthYear::Month ==> r@ == "month"@,
            *self == MonthYear::Year ==> r@ == "year"@,
    {
        match *self {
            MonthYear::Month => "month",
            MonthYear::Year => "year",
        }
    }
}

/// A wall-clock time of day, to the minute.
#[derive(Clone, Copy, Debug, PartialEq, Eq, Structural)]
pub struct TimeOfDay {
    pub hour: u32,
    pub minute: u32,
}

/// The character of a decimal digit `d` (`0 <= d < 10`).
pub open spec fn digit_char(d: int) -> char {
    ((48 + d) as u8) as char
}

/// `n` written with two decimal digits, zero-padded (`0 <= n < 100`).
pub open spec fn two_digits(n: int) -> Seq<char> {
    seq![digit_char(n / 10), digit_char(n % 10)]
}

/// A time of day written as `HH:MM`.
pub open spec fn clock_text(hour: int, minute: int) -> Seq<char> {
    two_digits(hour) + seq![':'] + two_digits(minute)
}

/// Relies on chrono's `NaiveTime::from_hms_opt`, which gives a time for any
/// hour below 24 and minute below 60, and on its `%H:%M` format: the hour and
/// the minute, each zero-padded to two digits, joined by a colon.
#[verifier::external_body]
fn format_clock(hour: u32, minute: u32) -> (r: String)
    requires
        hour < 24,
        minute < 60,
    ensures
        r@ == clock_text(hour as int, minute as int),
{
    chrono::NaiveTime::from_hms_opt(hour, minute, 0).unwrap().format("%H:%M").to_string()
}

impl TimeOfDay {
    /// An hour of a 24-hour clock and a minute of that hour.
    pub open spec fn wf(self) -> bool {
        self.hour < 24 && self.minute < 60
    }

    /// This time written as `HH:MM`.
    pub open spec fn text(self) -> Seq<char> {
        clock_text(self.hour as int, self.minute as int)
    }

    pub fn new(hour: u32, minute: u32) -> (r: TimeOfDay)
        requires
            hour < 24,
            minute < 60,
        ensures
            r == (TimeOfDay { hour, minute }),
            r.wf(),
    {
        TimeOfDay { hour, minute }
    }

    /// This time written as `HH:MM`.
    pub fn to_string(&self) -> (r: String)
        requires
            self.wf(),
        ensures
            r@ == self.text(),
    {
        format_clock(self.hour, self.minute)
    }
}

/// The start and end of a shift. An end earlier in the day than the start
/// stands for a shift that runs past midnight.
#[derive(Clone, Copy, Debug, PartialEq, Eq, Structural)]
pub struct TimeRange {
    pub start: TimeOfDay,
    pub end: TimeOfDay,
}

/// The range from `sh:sm` to `eh:em`.
pub open spec fn range_of(sh: u32, sm: u32, eh: u32, em: u32) -> TimeRange {
    TimeRange { start: TimeOfDay { hour: sh, minute: sm }, end: TimeOfDay { hour: eh, minute: em } }
}

/// The time range of each known shift code, written in upper case;
/// `None` for any other text.
pub open spec fn shift_range(code: Seq<char>) -> Option<TimeRange> {
    if code == "F187"@ {
        Some(range_of(4, 30, 13, 30))
    } else if code == "F195"@ {
        Some(range_of(4, 30, 14, 30))
    } else if code == "F201"@ {
        Some(range_of(4, 30, 14, 30))
    } else if code == "F82"@ {
        Some(range_of(4, 0, 13, 0))
    } else if code == "F96"@ {
        Some(range_of(4, 0, 14, 0))
    } else if code == "G181"@ {
        Some(range_of(5, 30, 14, 30))
    } else if code == "G186"@ {
        Some(range_of(5, 30, 14, 30))
    } else if code == "G197"@ {
        Some(range_of(5, 30, 15, 30))
    } else if code == "G3"@ {
        Some(range_of(5, 0, 9, 0))
    } else if code == "G78"@ {
        Some(range_of(5, 0, 14, 0))
    } else if code == "G82"@ {
        Some(range_of(5, 0, 14, 0))
    } else if code == "G91"@ {
        Some(range_of(5, 0, 15, 0))
    } else if code == "G96"@ {
        Some(range_of(5, 0, 15, 0))
    } else if code == "H187"@ {
        Some(range_of(6, 30, 15, 30))
    } else if code == "H201"@ {
        Some(range_of(6, 30, 16, 30))
    } else if code == "H3"@ {
        Some(range_of(6, 0, 10, 0))
    } else if code == "H72"@ {
        Some(range_of(6, 0, 15, 0))
    } else if code == "H73"@ {
        Some(range_of(6, 0, 15, 0))
    } else if code == "H96"@ {
        Some(range_of(6, 0, 16, 0))
    } else if code == "I108"@ {
        Some(range_of(7, 30, 11, 30))
    } else if code == "I177"@ {
        Some(range_of(7, 30, 16, 30))
    } else if code == "I3"@ {
        Some(range_of(7, 0, 11, 0))
    } else if code == "I74"@ {
        Some(range_of(7, 0, 16, 0))
    } else if code == "I92"@ {
        Some(range_of(7, 0, 17, 0))
    } else if code == "I94"@ {
        Some(range_of(7, 0, 17, 0))
    } else if code == "I96"@ {
        Some(range_of(7, 0, 17, 0))
    } else if code == "J108"@ {
        Some(range_of(8, 30, 12, 30))
    } else if code == "J177"@ {
        Some(range_of(8, 30, 17, 30))
    } else if code == "J178"@ {
        Some(range_of(8, 30, 17, 30))
    } else if code == "J180"@ {
        Some(range_of(8, 30, 17, 30))
    } else if code == "J3"@ {
        Some(range_of(8, 0, 12, 0))
    } else if code == "J74"@ {
        Some(range_of(8, 0, 17, 0))
    } else if code == "J92"@ {
        Some(range_of(8, 0, 18, 0))
    } else if code == "J96"@ {
        Some(range_of(8, 0, 18, 0))
    } else if code == "K108"@ {
        Some(range_of(9, 30, 13, 30))
    } else if code == "K177"@ {
        Some(range_of(9, 30, 18, 30))
    } else if code == "K3"@ {
        Some(range_of(9, 0, 13, 0))
    } else if code == "K74"@ {
        Some(range_of(9, 0, 18, 0))
    } else if code == "K78"@ {
        Some(range_of(9, 0, 18, 0))
    } else if code == "K92"@ {
        Some(range_of(9, 0, 19, 0))
    } else if code == "L179"@ {
        Some(range_of(10, 30, 19, 30))
    } else if code == "L194"@ {
        Some(range_of(10, 30, 20, 30))
    } else if code == "L3"@ {
        Some(range_of(10, 0, 14, 0))
    } else if code == "M110"@ {
        Some(range_of(11, 30, 15, 30))
    } else if code == "M181"@ {
        Some(range_of(11, 30, 20, 30))
    } else if code == "M4"@ {
        Some(range_of(11, 0, 15, 0))
    } else if code == "M75"@ {
        Some(range_of(11, 0, 20, 0))
    } else if code == "M90"@ {
        Some(range_of(11, 0, 21, 0))
    } else if code == "N188"@ {
        Some(range_of(12, 30, 21, 30))
    } else if code == "N190"@ {
        Some(range_of(12, 30, 21, 30))
    } else if code == "N80"@ {
        Some(range_of(12, 0, 21, 0))
    } else if code == "O20"@ {
        Some(range_of(13, 0, 17, 0))
    } else if code == "O95"@ {
        Some(range_of(13, 0, 22, 0))
    } else if code == "O99"@ {
        Some(range_of(13, 0, 22, 0))
    } else if code == "P37"@ {
        Some(range_of(14, 0, 18, 0))
    } else if code == "Q165"@ {
        Some(range_of(15, 30, 1, 30))
    } else if code == "Q179"@ {
        Some(range_of(15, 30, 19, 30))
    } else if code == "Q31"@ {
        Some(range_of(15, 0, 0, 0))
    } else if code == "R202"@ {
        Some(range_of(16, 30, 20, 30))
    } else if code == "R90"@ {
        Some(range_of(16, 0, 20, 0))
    } else if code == "S104"@ {
        Some(range_of(17, 0, 21, 0))
    } else if code == "S209"@ {
        Some(range_of(17, 30, 21, 30))
    } else if code == "T105"@ {
        Some(range_of(18, 0, 22, 0))
    } else if code == "T77"@ {
        Some(range_of(18, 0, 3, 0))
    } else if code == "V181"@ {
        Some(range_of(20, 30, 5, 30))
    } else if code == "W3"@ {
        Some(range_of(21, 0, 1, 0))
    } else if code == "W74"@ {
        Some(range_of(21, 0, 6, 0))
    } else {
        None
    }
}

/// Every range in the table has both ends on a 24-hour clock.
pub proof fn lemma_shift_range_wf(code: Seq<char>)
    ensures
        shift_range(code) matches Some(r) ==> r.wf(),
{
}

/// What `str::to_uppercase` makes of a text.
pub uninterp spec fn upper_of(s: Seq<char>) -> Seq<char>;

/// Relies on `str::to_uppercase`: the result depends on the characters alone.
#[verifier::external_body]
fn uppercase(s: &str) -> (r: String)
    ensures
        r@ == upper_of(s@),
{
    s.to_uppercase()
}

/// Whether two texts hold the same characters.
pub fn same_text(a: &str, b: &str) -> (r: bool)
    ensures
        r == (a@ == b@),
{
    let n = a.unicode_len();
    if n != b.unicode_len() {
        return false;
    }
    let mut i: usize = 0;
    while i < n
        invariant
            n == a@.len(),
            n == b@.len(),
            i <= n,
            forall|j: int| 0 <= j < i ==> a@[j] == b@[j],
        decreases n - i,
    {
        if a.get_char(i) != b.get_char(i) {
            return false;
        }
        i += 1;
    }
    assert(a@ =~= b@);
    true
}

impl TimeRange {
    /// Both ends are times of day.
    pub open spec fn wf(self) -> bool {
        self.start.wf() && self.end.wf()
    }

    /// The end comes earlier in the day than the start: the shift runs past
    /// midnight into the next day.
    pub open spec fn overnight(self) -> bool {
        self.end.hour < self.start.hour || (self.end.hour == self.start.hour && self.end.minute
            < self.start.minute)
    }

    /// Whether the shift runs past midnight into the next day.
    pub fn is_overnight(&self) -> (r: bool)
        ensures
            r == self.overnight(),
    {
        self.end.hour < self.start.hour || (self.end.hour == self.start.hour && self.end.minute
            < self.start.minute)
    }

    /// The range written as `HH:MM-HH:MM`.
    pub open spec fn text(self) -> Seq<char> {
        self.start.text() + seq!['-'] + self.end.text()
    }

    fn new(sh: u32, sm: u32, eh: u32, em: u32) -> (r: TimeRange)
        requires
            sh < 24,
            sm < 60,
            eh < 24,
            em < 60,
        ensures
            r == range_of(sh, sm, eh, em),
    {
        TimeRange { start: TimeOfDay::new(sh, sm), end: TimeOfDay::new(eh, em) }
    }

    /// Looks up a code exactly as written: the table's codes are in upper case.
    pub fn find_exact_code(code: &str) -> (r: Option<TimeRange>)
        ensures
            r == shift_range(code@),
    {
        if same_text(code, "F187") {
            Some(TimeRange::new(4, 30, 13, 30))
        } else if same_text(code, "F195") {
            Some(TimeRange::new(4, 30, 14, 30))
        } else if same_text(code, "F201") {
            Some(TimeRange::new(4, 30, 14, 30))
        } else if same_text(code, "F82") {
            Some(TimeRange::new(4, 0, 13, 0))
        } else if same_text(code, "F96") {
            Some(TimeRange::new(4, 0, 14, 0))
        } else if same_text(code, "G181") {
            Some(TimeRange::new(5, 30, 14, 30))
        } else if same_text(code, "G186") {
            Some(TimeRange::new(5, 30, 14, 30))
        } else if same_text(code, "G197") {
            Some(TimeRange::new(5, 30, 15, 30))
        } else if same_text(code, "G3") {
            Some(TimeRange::new(5, 0, 9, 0))
        } else if same_text(code, "G78") {
            Some(TimeRange::new(5, 0, 14, 0))
        } else if same_text(code, "G82") {
            Some(TimeRange::new(5, 0, 14, 0))
        } else if same_text(code, "G91") {
            Some(TimeRange::new(5, 0, 15, 0))
        } else if same_text(code, "G96") {
            Some(TimeRange::new(5, 0, 15, 0))
        } else if same_text(code, "H187") {
            Some(TimeRange::new(6, 30, 15, 30))
        } else if same_text(code, "H201") {
            Some(TimeRange::new(6, 30, 16, 30))
        } else if same_text(code, "H3") {
            Some(TimeRange::new(6, 0, 10, 0))
        } else if same_text(code, "H72") {
            Some(TimeRange::new(6, 0, 15, 0))
        } else if same_text(code, "H73") {
            Some(TimeRange::new(6, 0, 15, 0))
        } else if same_text(code, "H96") {
            Some(TimeRange::new(6, 0, 16, 0))
        } else if same_text(code, "I108") {
            Some(TimeRange::new(7, 30, 11, 30))
        } else if same_text(code, "I177") {
            Some(TimeRange::new(7, 30, 16, 30))
        } else if same_text(code, "I3") {
            Some(TimeRange::new(7, 0, 11, 0))
        } else if same_text(code, "I74") {
            Some(TimeRange::new(7, 0, 16, 0))
        } else if same_text(code, "I92") {
            Some(TimeRange::new(7, 0, 17, 0))
        } else if same_text(code, "I94") {
            Some(TimeRange::new(7, 0, 17, 0))
        } else if same_text(code, "I96") {
            Some(TimeRange::new(7, 0, 17, 0))
        } else if same_text(code, "J108") {
            Some(TimeRange::new(8, 30, 12, 30))
        } else if same_text(code, "J177") {
            Some(TimeRange::new(8, 30, 17, 30))
        } else if same_text(code, "J178") {
            Some(TimeRange::new(8, 30, 17, 30))
        } else if same_text(code, "J180") {
            Some(TimeRange::new(8, 30, 17, 30))
        } else if same_text(code, "J3") {
            Some(TimeRange::new(8, 0, 12, 0))
        } else if same_text(code, "J74") {
            Some(TimeRange::new(8, 0, 17, 0))
        } else if same_text(code, "J92") {
            Some(TimeRange::new(8, 0, 18, 0))
        } else if same_text(code, "J96") {
            Some(TimeRange::new(8, 0, 18, 0))
        } else if same_text(code, "K108") {
            Some(TimeRange::new(9, 30, 13, 30))
        } else if same_text(code, "K177") {
            Some(TimeRange::new(9, 30, 18, 30))
        } else if same_text(code, "K3") {
            Some(TimeRange::new(9, 0, 13, 0))
        } else if same_text(code, "K74") {
            Some(TimeRange::new(9, 0, 18, 0))
        } else if same_text(code, "K78") {
            Some(TimeRange::new(9, 0, 18, 0))
        } else if same_text(code, "K92") {
            Some(TimeRange::new(9, 0, 19, 0))
        } else if same_text(code, "L179") {
            Some(TimeRange::new(10, 30, 19, 30))
        } else if same_text(code, "L194") {
            Some(TimeRange::new(10, 30, 20, 30))
        } else if same_text(code, "L3") {
            Some(TimeRange::new(10, 0, 14, 0))
        } else if same_text(code, "M110") {
            Some(TimeRange::new(11, 30, 15, 30))
        } else if same_text(code, "M181") {
            Some(TimeRange::new(11, 30, 20, 30))
        } else if same_text(code, "M4") {
            Some(TimeRange::new(11, 0, 15, 0))
        } else if same_text(code, "M75") {
            Some(TimeRange::new(11, 0, 20, 0))
        } else if same_text(code, "M90") {
            Some(TimeRange::new(11, 0, 21, 0))
        } else if same_text(code, "N188") {
            Some(TimeRange::new(12, 30, 21, 30))
        } else if same_text(code, "N190") {
            Some(TimeRange::new(12, 30, 21, 30))
        } else if same_text(code, "N80") {
            Some(TimeRange::new(12, 0, 21, 0))
        } else if same_text(code, "O20") {
            Some(TimeRange::new(13, 0, 17, 0))
        } else if same_text(code, "O95") {
            Some(TimeRange::new(13, 0, 22, 0))
        } else if same_text(code, "O99") {
            Some(TimeRange::new(13, 0, 22, 0))
        } else if same_text(code, "P37") {
            Some(TimeRange::new(14, 0, 18, 0))
        } else if same_text(code, "Q165") {
            Some(TimeRange::new(15, 30, 1, 30))
        } else if same_text(code, "Q179") {
            Some(TimeRange::new(15, 30, 19, 30))
        } else if same_text(code, "Q31") {
            Some(TimeRange::new(15, 0, 0, 0))
        } else if same_text(code, "R202") {
            Some(TimeRange::new(16, 30, 20, 30))
        } else if same_text(code, "R90") {
            Some(TimeRange::new(16, 0, 20, 0))
        } else if same_text(code, "S104") {
            Some(TimeRange::new(17, 0, 21, 0))
        } else if same_text(code, "S209") {
            Some(TimeRange::new(17, 30, 21, 30))
        } else if same_text(code, "T105") {
            Some(TimeRange::new(18, 0, 22, 0))
        } else if same_text(code, "T77") {
            Some(TimeRange::new(18, 0, 3, 0))
        } else if same_text(code, "V181") {
            Some(TimeRange::new(20, 30, 5, 30))
        } else if same_text(code, "W3") {
            Some(TimeRange::new(21, 0, 1, 0))
        } else if same_text(code, "W74") {
            Some(TimeRange::new(21, 0, 6, 0))
        } else {
            None
        }
    }

    /// Looks up a code in any letter case: the code is put in upper case first.
    pub fn find_code(code: &str) -> (r: Option<TimeRange>)
        ensures
            r == shift_range(upper_of(code@)),
    {
        let upper = uppercase(code);
        TimeRange::find_exact_code(upper.as_str())
    }

    /// The range written as `HH:MM-HH:MM`.
    pub fn to_string(&self) -> (r: String)
        requires
            self.wf(),
        ensures
            r@ == self.text(),
    {
        let mut r = self.start.to_string();
        let end = self.end.to_string();
        r.append("-");
        r.append(end.as_str());
        proof {
            reveal_strlit("-");
        }
        r
    }
}

} // verus!
