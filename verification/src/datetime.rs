//! Calendar date and time of day, as plain numbers.

use vstd::prelude::*;

verus! {

/// A date and a time of day without a time zone.
///
/// The fields are plain numbers and nothing forces them to name a day that
/// exists: `is_valid` says whether they do.
#[derive(Debug, Clone, Copy, PartialEq, Eq, Structural)]
pub struct DateTime {
    pub year: i32,
    pub month: u32,
    pub day: u32,
    pub hour: u32,
    pub minute: u32,
    pub second: u32,
}

/// The first year that a date can have.
pub const MIN_YEAR: i32 = -262143;

/// The last year that a date can have.
pub const MAX_YEAR: i32 = 262142;

/// Leap years of the proleptic Gregorian calendar.
pub open spec fn is_leap_year(year: int) -> bool {
    year % 4 == 0 && (year % 100 != 0 || year % 400 == 0)
}

/// The number of days of a month, 0 for a month that does not exist.
pub open spec fn days_in_month(year: int, month: int) -> int {
    if month == 1 || month == 3 || month == 5 || month == 7 || month == 8 || month == 10 || month
        == 12 {
        31
    } else if month == 4 || month == 6 || month == 9 || month == 11 {
        30
    } else if month == 2 {
        if is_leap_year(year) {
            29
        } else {
            28
        }
    } else {
        0
    }
}

/// Whether year, month and day name a day of the calendar.
pub open spec fn is_calendar_date(year: int, month: int, day: int) -> bool {
    &&& MIN_YEAR <= year <= MAX_YEAR
    &&& 1 <= month <= 12
    &&& 1 <= day <= days_in_month(year, month)
}

/// Whether hour, minute and second name a time of day.
pub open spec fn is_clock_time(hour: int, minute: int, second: int) -> bool {
    0 <= hour < 24 && 0 <= minute < 60 && 0 <= second < 60
}

/// What formatting a date with a `strftime` format string gives: the text,
/// or `None` where the numbers name no date or the format string is refused.
pub uninterp spec fn formatted_date(
    year: int,
    month: int,
    day: int,
    hour: int,
    minute: int,
    second: int,
    format: Seq<char>,
) -> Option<Seq<char>>;

/// What reading a text against a `strftime` format string gives: year,
/// month, day, hour, minute and second, or `None` where the text does not
/// fit the format or names no date.
pub uninterp spec fn parsed_date(text: Seq<char>, format: Seq<char>) -> Option<
    (int, int, int, int, int, int),
>;

/// The date that reading a text against a format string gives.
pub open spec fn parsed_datetime(text: Seq<char>, format: Seq<char>) -> Option<DateTime> {
    match parsed_date(text, format) {
        Some(fields) => Some(
            DateTime {
                year: fields.0 as i32,
                month: fields.1 as u32,
                day: fields.2 as u32,
                hour: fields.3 as u32,
                minute: fields.4 as u32,
                second: fields.5 as u32,
            },
        ),
        None => None,
    }
}

impl DateTime {
    /// Whether the numbers name a date and a time that exist.
    pub open spec fn is_valid(&self) -> bool {
        &&& is_calendar_date(self.year as int, self.month as int, self.day as int)
        &&& is_clock_time(self.hour as int, self.minute as int, self.second as int)
    }

    /// The numbers as a tuple: year, month, day, hour, minute, second.
    pub open spec fn fields(&self) -> (int, int, int, int, int, int) {
        (
            self.year as int,
            self.month as int,
            self.day as int,
            self.hour as int,
            self.minute as int,
            self.second as int,
        )
    }

    /// The text of this date under a format string.
    pub open spec fn formatted(&self, format: Seq<char>) -> Option<Seq<char>> {
        formatted_date(
            self.year as int,
            self.month as int,
            self.day as int,
            self.hour as int,
            self.minute as int,
            self.second as int,
            format,
        )
    }

    /// The date and time with these numbers, where they name one.
    pub fn new(year: i32, month: u32, day: u32, hour: u32, minute: u32, second: u32) -> (date:
        Option<DateTime>)
        ensures
            date is Some <==> (DateTime { year, month, day, hour, minute, second }).is_valid(),
            date is Some ==> date->0 == (DateTime { year, month, day, hour, minute, second }),
    {
        if valid_date(year, month, day) && hour < 24 && minute < 60 && second < 60 {
            Some(DateTime { year, month, day, hour, minute, second })
        } else {
            None
        }
    }

    /// Formats the date with a `strftime` format string.
    pub fn format(&self, format: &str) -> (text: Option<String>)
        ensures
            text is Some <==> self.formatted(format@) is Some,
            text is Some ==> text->0@ == self.formatted(format@)->0,
    {
        format_date(self, format)
    }

    /// Reads a date from a text that follows a `strftime` format string.
    pub fn parse(text: &str, format: &str) -> (date: Option<DateTime>)
        ensures
            date == parsed_datetime(text@, format@),
    {
        parse_date(text, format)
    }
}

/// Whether the year is a leap year.
pub fn leap_year(year: i32) -> (leap: bool)
    ensures
        leap == is_leap_year(year as int),
{
    year % 4 == 0 && (year % 100 != 0 || year % 400 == 0)
}

/// Whether year, month and day name a day of the calendar.
pub fn valid_date(year: i32, month: u32, day: u32) -> (valid: bool)
    ensures
        valid == is_calendar_date(year as int, month as int, day as int),
{
    if year < MIN_YEAR || year > MAX_YEAR || month < 1 || month > 12 || day < 1 {
        return false;
    }
    let days: u32 = if month == 2 {
        if leap_year(year) {
            29
        } else {
            28
        }
    } else if month == 4 || month == 6 || month == 9 || month == 11 {
        30
    } else {
        31
    };
    day <= days
}

/// Calls chrono's `NaiveDate::from_ymd_opt`, `NaiveDate::and_hms_opt`,
/// `NaiveDateTime::format` and `DelayedFormat::write_to`. The text that
/// chrono writes is not spelled out: it is known as `formatted_date` of the
/// six numbers and the format string. `None` stands for a date that chrono
/// does not accept and for a format string that it refuses while writing.
#[verifier::external_body]
fn format_date(date: &DateTime, format: &str) -> (text: Option<String>)
    ensures
        text is Some <==> formatted_date(
            date.year as int,
            date.month as int,
            date.day as int,
            date.hour as int,
            date.minute as int,
            date.second as int,
            format@,
        ) is Some,
        text is Some ==> text->0@ == formatted_date(
            date.year as int,
            date.month as int,
            date.day as int,
            date.hour as int,
            date.minute as int,
            date.second as int,
            format@,
        )->0,
{
    let day = chrono::NaiveDate::from_ymd_opt(date.year, date.month, date.day)?;
    let moment = day.and_hms_opt(date.hour, date.minute, date.second)?;
    let mut text = String::new();
    moment.format(format).write_to(&mut text).ok()?;
    Some(text)
}

/// Calls chrono's `NaiveDateTime::parse_from_str` and reads the six numbers
/// off the result. What chrono accepts is not spelled out: the result is
/// known as `parsed_date` of the text and the format string.
#[verifier::external_body]
fn parse_date(text: &str, format: &str) -> (date: Option<DateTime>)
    ensures
        date is Some <==> parsed_date(text@, format@) is Some,
        date is Some ==> date->0.fields() == parsed_date(text@, format@)->0,
{
    let moment = chrono::NaiveDateTime::parse_from_str(text, format).ok()?;
    Some(
        DateTime {
            year: chrono::Datelike::year(&moment),
            month: chrono::Datelike::month(&moment),
            day: chrono::Datelike::day(&moment),
            hour: chrono::Timelike::hour(&moment),
            minute: chrono::Timelike::minute(&moment),
            second: chrono::Timelike::second(&moment),
        },
    )
}

} // verus!
