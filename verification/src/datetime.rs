//! The ICC `dateTimeNumber`: six 16-bit fields for year, month, day, hours,
//! minutes and seconds, and the calendar rules (from `chrono`) that decide
//! whether they form a valid date and time.

use chrono::{Datelike, Timelike};
use vstd::prelude::*;

use crate::text::{decimal_text, push_char, push_decimal};

verus! {

/// An ICC date and time, as stored in the profile header (UTC).
#[derive(Debug, Clone, Copy, PartialEq, Eq, Structural)]
pub struct DateTimeNumber {
    pub year: u16,
    pub month: u16,
    pub day: u16,
    pub hours: u16,
    pub minutes: u16,
    pub seconds: u16,
}

/// Leap years of the proleptic Gregorian calendar.
pub open spec fn is_leap_year(y: int) -> bool {
    (y % 4 == 0 && y % 100 != 0) || y % 400 == 0
}

/// Number of days in month `m` (1 to 12) of year `y`.
pub open spec fn days_in_month(y: int, m: int) -> int {
    if m == 2 {
        if is_leap_year(y) { 29 } else { 28 }
    } else if m == 4 || m == 6 || m == 9 || m == 11 {
        30
    } else {
        31
    }
}

/// The calendar dates that `chrono::NaiveDate` can represent.
pub open spec fn valid_date(y: int, m: int, d: int) -> bool {
    &&& -262143 <= y <= 262142
    &&& 1 <= m <= 12
    &&& 1 <= d <= days_in_month(y, m)
}

/// The times of day that `chrono::NaiveTime::from_hms_opt` accepts.
pub open spec fn valid_time(h: int, mi: int, s: int) -> bool {
    0 <= h < 24 && 0 <= mi < 60 && 0 <= s < 60
}

/// Whether the six fields form a valid date and time.
pub open spec fn valid_date_time(d: DateTimeNumber) -> bool {
    valid_date(d.year as int, d.month as int, d.day as int) && valid_time(
        d.hours as int,
        d.minutes as int,
        d.seconds as int,
    )
}

/// Whether `chrono` has a calendar date for year, month and day
/// (`chrono::NaiveDate::from_ymd_opt`): true exactly for the days of the proleptic
/// Gregorian calendar within chrono's year range.
#[verifier::external_body]
fn naive_date_exists(year: i32, month: u32, day: u32) -> (ok: bool)
    ensures
        ok == valid_date(year as int, month as int, day as int),
{
    chrono::NaiveDate::from_ymd_opt(year, month, day).is_some()
}

/// Whether `chrono` has a time of day for hour, minute and second
/// (`chrono::NaiveTime::from_hms_opt`, on which `NaiveDate::and_hms_opt` rests):
/// true exactly for hours below 24 and minutes and seconds below 60.
#[verifier::external_body]
fn naive_time_exists(hour: u32, min: u32, sec: u32) -> (ok: bool)
    ensures
        ok == valid_time(hour as int, min as int, sec as int),
{
    chrono::NaiveTime::from_hms_opt(hour, min, sec).is_some()
}

/// What a reading of the UTC clock can give: a month, a day of a month, and a
/// time of day in their ranges, with any year.
pub open spec fn is_clock_reading(d: DateTimeNumber) -> bool {
    &&& 1 <= d.month <= 12
    &&& 1 <= d.day <= 31
    &&& d.hours < 24
    &&& d.minutes < 60
    &&& d.seconds < 60
}

/// The current UTC date and time, to the second (`chrono::Utc::now`).  It depends
/// on the clock, so only the ranges of the fields are stated; the year is cut to
/// 16 bits as the header field is.
#[verifier::external_body]
pub(crate) fn current_utc_date_time() -> (d: DateTimeNumber)
    ensures
        is_clock_reading(d),
{
    let now = chrono::Utc::now().naive_utc();
    DateTimeNumber {
        year: now.year() as u16,
        month: now.month() as u16,
        day: now.day() as u16,
        hours: now.hour() as u16,
        minutes: now.minute() as u16,
        seconds: now.second() as u16,
    }
}

/// A year as chrono shows it in a date: four digits with leading zeros up to
/// 9999, and with a plus sign beyond.
pub open spec fn year_text(y: nat) -> Seq<char> {
    if y < 10 {
        seq!['0', '0', '0'] + decimal_text(y)
    } else if y < 100 {
        seq!['0', '0'] + decimal_text(y)
    } else if y < 1000 {
        seq!['0'] + decimal_text(y)
    } else if y <= 9999 {
        decimal_text(y)
    } else {
        seq!['+'] + decimal_text(y)
    }
}

/// A UTC date and time as chrono shows it: `YYYY-MM-DD hh:mm:ss UTC`.
pub open spec fn utc_text(year: u16, month: u16, day: u16, hours: u16, minutes: u16, seconds: u16) -> Seq<char> {
    year_text(year as nat) + seq!['-'] + two_digit_text(month as nat) + seq!['-'] + two_digit_text(day as nat)
        + seq![' '] + two_digit_text(hours as nat) + seq![':'] + two_digit_text(minutes as nat) + seq![':']
        + two_digit_text(seconds as nat) + " UTC"@
}

/// A valid UTC date and time as chrono shows it: builds the `DateTime<Utc>`
/// (`NaiveDate::from_ymd_opt`, `and_hms_opt`, `DateTime::from_naive_utc_and_offset`)
/// and turns it into text with its `Display`, which writes the date, a space,
/// the time of day and `UTC`, with the year padded to four digits up to 9999 and
/// signed beyond, and every other field in two digits.
#[verifier::external_body]
pub(crate) fn utc_date_time_string(year: u16, month: u16, day: u16, hours: u16, minutes: u16, seconds: u16) -> (s: String)
    requires
        valid_date(year as int, month as int, day as int),
        valid_time(hours as int, minutes as int, seconds as int),
    ensures
        s@ == utc_text(year, month, day, hours, minutes, seconds),
{
    let date = chrono::NaiveDate::from_ymd_opt(year as i32, month as u32, day as u32).unwrap();
    let naive = date.and_hms_opt(hours as u32, minutes as u32, seconds as u32).unwrap();
    chrono::DateTime::<chrono::Utc>::from_naive_utc_and_offset(naive, chrono::Utc).to_string()
}

impl DateTimeNumber {
    /// Whether the fields form a valid date and time, as decided by `chrono`.
    pub fn is_valid(&self) -> (ok: bool)
        ensures
            ok == valid_date_time(*self),
    {
        naive_date_exists(self.year as i32, self.month as u32, self.day as u32) && naive_time_exists(
            self.hours as u32,
            self.minutes as u32,
            self.seconds as u32,
        )
    }
}

/// A number written with at least two digits (a leading zero below ten).
pub open spec fn two_digit_text(n: nat) -> Seq<char> {
    if n < 10 {
        seq!['0'].add(decimal_text(n))
    } else {
        decimal_text(n)
    }
}

/// `YYYY-MM-DD hh:mm:ss`, with the year unpadded and the other fields two digits.
pub open spec fn date_time_text(d: DateTimeNumber) -> Seq<char> {
    decimal_text(d.year as nat) + seq!['-'] + two_digit_text(d.month as nat) + seq!['-']
        + two_digit_text(d.day as nat) + seq![' '] + two_digit_text(d.hours as nat) + seq![':']
        + two_digit_text(d.minutes as nat) + seq![':'] + two_digit_text(d.seconds as nat)
}

fn push_two_digits(s: &mut String, n: u16)
    ensures
        final(s)@ == old(s)@ + two_digit_text(n as nat),
{
    if n < 10 {
        push_char(s, '0');
    }
    push_decimal(s, n as u32);
    if n < 10 {
        assert(old(s)@.push('0') + decimal_text(n as nat) =~= old(s)@ + (seq!['0'] + decimal_text(n as nat)));
    }
}

impl DateTimeNumber {
    /// The date and time as text, `YYYY-MM-DD hh:mm:ss`.
    pub fn to_text(&self) -> (s: String)
        ensures
            s@ == date_time_text(*self),
    {
        let mut s = String::new();
        push_decimal(&mut s, self.year as u32);
        push_char(&mut s, '-');
        push_two_digits(&mut s, self.month);
        push_char(&mut s, '-');
        push_two_digits(&mut s, self.day);
        push_char(&mut s, ' ');
        push_two_digits(&mut s, self.hours);
        push_char(&mut s, ':');
        push_two_digits(&mut s, self.minutes);
        push_char(&mut s, ':');
        push_two_digits(&mut s, self.seconds);
        assert(s@ =~= date_time_text(*self));
        s
    }
}

} // verus!
