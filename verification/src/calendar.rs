//! Calendar dates: which days exist, how a date is read and how it is
//! written.

use chrono::Datelike;
use chrono::NaiveDate;
use vstd::prelude::*;

verus! {

/// The format under which dates are read and written: year, month and day,
/// joined by hyphens.
pub const ISO_FORMAT: &'static str = "%Y-%m-%d";

/// The earliest year a [`CalendarDate`] can hold.
pub const MIN_YEAR: i32 = -262143;

/// The latest year a [`CalendarDate`] can hold.
pub const MAX_YEAR: i32 = 262142;

/// Whether `year` has a 29th of February.
pub open spec fn is_leap_year(year: int) -> bool {
    year % 4 == 0 && (year % 100 != 0 || year % 400 == 0)
}

/// The number of days of a month. Months are counted from 1.
pub open spec fn days_in_month(year: int, month: int) -> int {
    if month == 2 {
        if is_leap_year(year) {
            29
        } else {
            28
        }
    } else if month == 4 || month == 6 || month == 9 || month == 11 {
        30
    } else {
        31
    }
}

/// Whether `year`-`month`-`day` names a day of the proleptic Gregorian calendar.
pub open spec fn is_calendar_date(year: int, month: int, day: int) -> bool {
    1 <= month <= 12 && 1 <= day <= days_in_month(year, month)
}

/// A day of the proleptic Gregorian calendar.
#[derive(Clone, Copy, Debug, PartialEq, Eq)]
pub struct CalendarDate {
    pub year: i32,
    pub month: u32,
    pub day: u32,
}

impl CalendarDate {
    /// The date exists and its year lies between [`MIN_YEAR`] and [`MAX_YEAR`].
    pub open spec fn wf(&self) -> bool {
        &&& MIN_YEAR <= self.year <= MAX_YEAR
        &&& is_calendar_date(self.year as int, self.month as int, self.day as int)
    }

    /// The date of the given year, month and day, where there is such a day
    /// and the year is one that a date can hold.
    pub fn new(year: i32, month: u32, day: u32) -> (r: Option<CalendarDate>)
        ensures
            r matches Some(d) ==> d.wf() && d.year == year && d.month == month && d.day == day,
            r is Some <==> MIN_YEAR <= year <= MAX_YEAR && is_calendar_date(
                year as int,
                month as int,
                day as int,
            ),
    {
        if year < MIN_YEAR || year > MAX_YEAR || month < 1 || month > 12 || day < 1 {
            return None;
        }
        let leap: bool = year % 4 == 0 && (year % 100 != 0 || year % 400 == 0);
        let last: u32 = if month == 2 {
            if leap {
                29
            } else {
                28
            }
        } else if month == 4 || month == 6 || month == 9 || month == 11 {
            30
        } else {
            31
        };
        if day <= last {
            Some(CalendarDate { year, month, day })
        } else {
            None
        }
    }
}

/// Whether `c` is one of the digits `0` to `9`.
pub open spec fn is_digit(c: char) -> bool {
    '0' <= c <= '9'
}

/// The number a decimal digit stands for.
pub open spec fn digit_value(c: char) -> int {
    c as int - '0' as int
}

/// The decimal digit that stands for `d`, a number from 0 to 9.
pub open spec fn digit_char(d: int) -> char {
    (d + '0' as int) as u8 as char
}

/// The digits of `n`, without leading zeros.
pub open spec fn decimal(n: nat) -> Seq<char>
    decreases n,
{
    if n < 10 {
        seq![digit_char(n as int)]
    } else {
        decimal(n / 10).push(digit_char((n % 10) as int))
    }
}

/// The last two digits of `n`.
pub open spec fn two_digits(n: int) -> Seq<char> {
    seq![digit_char(n / 10 % 10), digit_char(n % 10)]
}

/// The last four digits of `n`.
pub open spec fn four_digits(n: int) -> Seq<char> {
    seq![
        digit_char(n / 1000 % 10),
        digit_char(n / 100 % 10),
        digit_char(n / 10 % 10),
        digit_char(n % 10),
    ]
}

/// A year as it is written: four digits from 0 to 9999, and otherwise a sign
/// followed by at least four digits.
pub open spec fn year_text(year: int) -> Seq<char> {
    if 0 <= year <= 9999 {
        four_digits(year)
    } else if year > 9999 {
        seq!['+'] + decimal(year as nat)
    } else if year >= -9999 {
        seq!['-'] + four_digits(-year)
    } else {
        seq!['-'] + decimal((-year) as nat)
    }
}

/// A date as it is written: the year, the month in two digits and the day in
/// two digits, joined by hyphens.
pub open spec fn iso_text(year: int, month: int, day: int) -> Seq<char> {
    year_text(year) + seq!['-'] + two_digits(month) + seq!['-'] + two_digits(day)
}

/// Whether `s` is four digits, a hyphen, two digits, a hyphen and two digits.
pub open spec fn is_iso_shape(s: Seq<char>) -> bool {
    &&& s.len() == 10
    &&& is_digit(s[0])
    &&& is_digit(s[1])
    &&& is_digit(s[2])
    &&& is_digit(s[3])
    &&& s[4] == '-'
    &&& is_digit(s[5])
    &&& is_digit(s[6])
    &&& s[7] == '-'
    &&& is_digit(s[8])
    &&& is_digit(s[9])
}

/// The year that the first four digits of `s` spell.
pub open spec fn shape_year(s: Seq<char>) -> int {
    1000 * digit_value(s[0]) + 100 * digit_value(s[1]) + 10 * digit_value(s[2]) + digit_value(
        s[3],
    )
}

/// The month that the digits of `s` after its first hyphen spell.
pub open spec fn shape_month(s: Seq<char>) -> int {
    10 * digit_value(s[5]) + digit_value(s[6])
}

/// The day that the last two digits of `s` spell.
pub open spec fn shape_day(s: Seq<char>) -> int {
    10 * digit_value(s[8]) + digit_value(s[9])
}

/// The date that a text of the shape `is_iso_shape` spells, where there is
/// such a day.
pub open spec fn shape_date(s: Seq<char>) -> Option<(int, int, int)> {
    if is_calendar_date(shape_year(s), shape_month(s), shape_day(s)) {
        Some((shape_year(s), shape_month(s), shape_day(s)))
    } else {
        None
    }
}

/// Year, month and day of `chrono::NaiveDate::parse_from_str(text, format)`,
/// and `None` where that call reports an error.
pub uninterp spec fn parsed_date(text: Seq<char>, format: Seq<char>) -> Option<(int, int, int)>;

impl CalendarDate {
    /// Year, month and day.
    pub open spec fn triple(&self) -> (int, int, int) {
        (self.year as int, self.month as int, self.day as int)
    }

    /// The date as it is written under [`ISO_FORMAT`].
    pub open spec fn iso_text(&self) -> Seq<char> {
        iso_text(self.year as int, self.month as int, self.day as int)
    }
}

/// Year, month and day of an optional date.
pub open spec fn triple_of(date: Option<CalendarDate>) -> Option<(int, int, int)> {
    match date {
        Some(d) => Some(d.triple()),
        None => None,
    }
}

/// Calls `chrono::NaiveDate::parse_from_str` and reads year, month and day
/// off the date it returns.
///
/// Trusted: the result is the one named by [`parsed_date`]; a date that comes
/// back exists and lies in chrono's range of years; and a text of four
/// digits, a hyphen, two digits, a hyphen and two digits is read as the date
/// that its digits spell, or refused where there is no such day.
#[verifier::external_body]
fn parse_date(text: &str, format: &str) -> (r: Option<CalendarDate>)
    requires
        format@ == ISO_FORMAT@,
    ensures
        triple_of(r) == parsed_date(text@, format@),
        r matches Some(d) ==> d.wf(),
        is_iso_shape(text@) ==> triple_of(r) == shape_date(text@),
{
    match NaiveDate::parse_from_str(text, format) {
        Ok(d) => Some(CalendarDate { year: d.year(), month: d.month(), day: d.day() }),
        Err(_) => None,
    }
}

/// Calls `chrono::NaiveDate::format` on the date that
/// `chrono::NaiveDate::from_ymd_opt` makes of `date`, and collects the text
/// with `DelayedFormat::write_to`.
///
/// Trusted: a date that exists and lies in chrono's range of years is made
/// and written, and the text is the year as [`year_text`] writes it, the
/// month and the day in two digits each, joined by hyphens.
#[verifier::external_body]
fn format_date(date: CalendarDate, format: &str) -> (r: Option<String>)
    requires
        format@ == ISO_FORMAT@,
    ensures
        date.wf() ==> r.deep_view() == Some(date.iso_text()),
{
    let d = NaiveDate::from_ymd_opt(date.year, date.month, date.day)?;
    let mut out = String::new();
    match d.format(format).write_to(&mut out) {
        Ok(()) => Some(out),
        Err(_) => None,
    }
}

impl CalendarDate {
    /// Reads a date written as year, month and day joined by hyphens.
    pub fn parse(text: &str) -> (r: Option<CalendarDate>)
        ensures
            triple_of(r) == parsed_date(text@, ISO_FORMAT@),
            r matches Some(d) ==> d.wf(),
            is_iso_shape(text@) ==> triple_of(r) == shape_date(text@),
    {
        parse_date(text, ISO_FORMAT)
    }

    /// Writes the date as year, month and day joined by hyphens.
    pub fn to_iso_text(&self) -> (r: String)
        requires
            self.wf(),
        ensures
            r@ == self.iso_text(),
    {
        match format_date(*self, ISO_FORMAT) {
            Some(s) => s,
            None => vstd::pervasive::unreached(),
        }
    }
}

proof fn lemma_four_digit_places(a: int, b: int, c: int, d: int)
    requires
        0 <= a <= 9,
        0 <= b <= 9,
        0 <= c <= 9,
        0 <= d <= 9,
    ensures
        (1000 * a + 100 * b + 10 * c + d) / 1000 % 10 == a,
        (1000 * a + 100 * b + 10 * c + d) / 100 % 10 == b,
        (1000 * a + 100 * b + 10 * c + d) / 10 % 10 == c,
        (1000 * a + 100 * b + 10 * c + d) % 10 == d,
{
    let n = 1000 * a + 100 * b + 10 * c + d;
    assert(n / 100 == 10 * a + b);
    assert(n / 10 == 100 * a + 10 * b + c);
}

proof fn lemma_two_digit_places(a: int, b: int)
    requires
        0 <= a <= 9,
        0 <= b <= 9,
    ensures
        (10 * a + b) / 10 % 10 == a,
        (10 * a + b) % 10 == b,
{
}

proof fn lemma_digit_char_of_value(c: char)
    requires
        is_digit(c),
    ensures
        0 <= digit_value(c) <= 9,
        digit_char(digit_value(c)) == c,
{
}

/// Writing the date that a well-shaped text spells gives that text back.
pub proof fn lemma_iso_text_round_trip(s: Seq<char>)
    requires
        is_iso_shape(s),
    ensures
        0 <= shape_year(s) <= 9999,
        iso_text(shape_year(s), shape_month(s), shape_day(s)) == s,
{
    lemma_digit_char_of_value(s[0]);
    lemma_digit_char_of_value(s[1]);
    lemma_digit_char_of_value(s[2]);
    lemma_digit_char_of_value(s[3]);
    lemma_digit_char_of_value(s[5]);
    lemma_digit_char_of_value(s[6]);
    lemma_digit_char_of_value(s[8]);
    lemma_digit_char_of_value(s[9]);
    lemma_four_digit_places(
        digit_value(s[0]),
        digit_value(s[1]),
        digit_value(s[2]),
        digit_value(s[3]),
    );
    lemma_two_digit_places(digit_value(s[5]), digit_value(s[6]));
    lemma_two_digit_places(digit_value(s[8]), digit_value(s[9]));
}

} // verus!
