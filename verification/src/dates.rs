//! Dates as the tabs show them, read and written by chrono.
use vstd::prelude::*;
use crate::text::{owned, push_decimal, decimal};

verus! {

/// What chrono gives for a `%Y-%m-%d %H:%M:%S` timestamp written again as
/// `%m/%d/%Y`; nothing when the text is no such timestamp.
pub uninterp spec fn us_date_of_timestamp(s: Seq<char>) -> Option<Seq<char>>;

/// What chrono gives for an RFC 3339 date-time, its local date written as
/// `%m/%d/%Y`; nothing when the text is no RFC 3339 date-time.
pub uninterp spec fn us_date_of_rfc3339(s: Seq<char>) -> Option<Seq<char>>;

/// Whether `year` is a leap year of the proleptic Gregorian calendar.
pub open spec fn leap_year(year: int) -> bool {
    year % 4 == 0 && (year % 100 != 0 || year % 400 == 0)
}

/// The number of days of `month` in `year`.
pub open spec fn month_days(year: int, month: int) -> int {
    if month == 2 {
        if leap_year(year) { 29 } else { 28 }
    } else if month == 4 || month == 6 || month == 9 || month == 11 {
        30
    } else {
        31
    }
}

/// Whether chrono's calendar, which runs from the year -262143 to the year
/// 262142, has the day `year`-`month`-`day`.
pub open spec fn calendar_day(year: int, month: int, day: int) -> bool {
    -262143 <= year <= 262142 && 1 <= month <= 12 && 1 <= day <= month_days(year, month)
}

/// `s` with zeros before it up to `width` characters.
pub open spec fn zero_padded(s: Seq<char>, width: nat) -> Seq<char> {
    if s.len() >= width {
        s
    } else {
        Seq::new((width - s.len()) as nat, |i: int| '0') + s
    }
}

/// A year as RFC 3339 writes it: four digits from 0 to 9999, else its sign
/// and at least four digits.
pub open spec fn rfc3339_year(year: int) -> Seq<char> {
    if 0 <= year <= 9999 {
        zero_padded(decimal(year as nat), 4)
    } else if year < 0 {
        "-"@ + zero_padded(decimal((-year) as nat), 4)
    } else {
        "+"@ + zero_padded(decimal(year as nat), 4)
    }
}

/// Midnight UTC of the day `year`-`month`-`day` written as RFC 3339, as
/// chrono's `to_rfc3339` writes it; nothing when there is no such day.
pub open spec fn utc_midnight_rfc3339(year: i32, month: u32, day: u32) -> Option<Seq<char>> {
    if calendar_day(year as int, month as int, day as int) {
        Some(rfc3339_year(year as int) + "-"@ + zero_padded(decimal(month as nat), 2) + "-"@
            + zero_padded(decimal(day as nat), 2) + "T00:00:00+00:00"@)
    } else {
        None
    }
}

/// What chrono reads as a UTC date-time from `s`, by its calendar date
/// (year, month, day); nothing when `s` is no date-time.
pub uninterp spec fn utc_calendar_date(s: Seq<char>) -> Option<(i32, u32, u32)>;

/// What chrono gives for a Unix time in seconds, written as
/// `%m/%d/%Y %H:%M UTC`; nothing when it is out of chrono's range.
pub uninterp spec fn utc_text_of_unix(secs: i64) -> Option<Seq<char>>;

/// Reads `s` with `NaiveDateTime::parse_from_str` as `%Y-%m-%d %H:%M:%S`
/// and writes it again with `format("%m/%d/%Y")`.
#[verifier::external_body]
fn chrono_us_date_of_timestamp(s: &str) -> (r: Option<String>)
    ensures
        match r { Some(d) => Some(d@), None => None } == us_date_of_timestamp(s@),
{
    chrono::NaiveDateTime::parse_from_str(s, "%Y-%m-%d %H:%M:%S").ok().map(|d| d.format("%m/%d/%Y").to_string())
}

/// Reads `s` with `DateTime::parse_from_rfc3339` and writes its local date
/// with `format("%m/%d/%Y")`.
#[verifier::external_body]
fn chrono_us_date_of_rfc3339(s: &str) -> (r: Option<String>)
    ensures
        match r { Some(d) => Some(d@), None => None } == us_date_of_rfc3339(s@),
{
    chrono::DateTime::parse_from_rfc3339(s).ok().map(|d| d.naive_local().date().format("%m/%d/%Y").to_string())
}

/// Turns `secs` into a UTC time with `DateTime::<Utc>::from_timestamp(secs, 0)`
/// and writes it with `format("%m/%d/%Y %H:%M UTC")`.
#[verifier::external_body]
fn chrono_utc_text_of_unix(secs: i64) -> (r: Option<String>)
    ensures
        match r { Some(d) => Some(d@), None => None } == utc_text_of_unix(secs),
{
    chrono::DateTime::<chrono::Utc>::from_timestamp(secs, 0).map(|d| d.format("%m/%d/%Y %H:%M UTC").to_string())
}

/// Builds the day with `NaiveDate::from_ymd_opt`, takes its midnight with
/// `and_hms_opt(0, 0, 0)` in UTC, and writes it with `to_rfc3339`; the
/// contract claims chrono's calendar range, its leap-year rule and the text
/// `to_rfc3339` writes, as `utc_midnight_rfc3339` spells them out.
#[verifier::external_body]
fn chrono_utc_midnight_rfc3339(year: i32, month: u32, day: u32) -> (r: Option<String>)
    ensures
        match r { Some(d) => Some(d@), None => None } == utc_midnight_rfc3339(year, month, day),
{
    chrono::NaiveDate::from_ymd_opt(year, month, day)
        .and_then(|d| d.and_hms_opt(0, 0, 0))
        .map(|t| t.and_utc().to_rfc3339())
}

/// Parses `s` as a `DateTime<Utc>` (its `FromStr`) and takes the year,
/// month and day of `date_naive`.
#[verifier::external_body]
fn chrono_utc_calendar_date(s: &str) -> (r: Option<(i32, u32, u32)>)
    ensures
        r == utc_calendar_date(s@),
{
    s.parse::<chrono::DateTime<chrono::Utc>>().ok().map(|d| {
        let n = d.date_naive();
        (chrono::Datelike::year(&n), chrono::Datelike::month(&n), chrono::Datelike::day(&n))
    })
}

/// The due date a task is given when a day is picked for it: that day's
/// midnight in UTC, as RFC 3339.
pub fn due_date_rfc3339(year: i32, month: u32, day: u32) -> (r: Option<String>)
    ensures
        match r { Some(d) => Some(d@), None => None } == utc_midnight_rfc3339(year, month, day),
{
    chrono_utc_midnight_rfc3339(year, month, day)
}

/// The day a task's due date falls on, as the date picker shows it.
pub fn due_day(due_date: &str) -> (r: Option<(i32, u32, u32)>)
    ensures
        r == utc_calendar_date(due_date@),
{
    chrono_utc_calendar_date(due_date)
}

/// A `%Y-%m-%d %H:%M:%S` timestamp written as month/day/year, when it is one.
pub fn timestamp_as_us_date(s: &str) -> (r: Option<String>)
    ensures
        match r { Some(d) => Some(d@), None => None } == us_date_of_timestamp(s@),
{
    chrono_us_date_of_timestamp(s)
}

/// An RFC 3339 date-time's date written as month/day/year, when it is one.
pub fn rfc3339_as_us_date(s: &str) -> (r: Option<String>)
    ensures
        match r { Some(d) => Some(d@), None => None } == us_date_of_rfc3339(s@),
{
    chrono_us_date_of_rfc3339(s)
}

/// A signed number in decimal.
pub open spec fn signed_decimal(n: int) -> Seq<char> {
    if n < 0 { "-"@ + decimal((-n) as nat) } else { decimal(n as nat) }
}

/// A Unix time as the crash view shows it: its UTC date and time, or the
/// number itself when chrono cannot place it.
pub fn unix_to_string(secs: i64) -> (s: String)
    ensures
        s@ == match utc_text_of_unix(secs) { Some(t) => t, None => signed_decimal(secs as int) },
{
    match chrono_utc_text_of_unix(secs) {
        Some(t) => t,
        None => {
            if secs < 0 {
                let mut s = owned("-");
                let magnitude: u64 = if secs == i64::MIN { 9223372036854775808u64 } else { (-secs) as u64 };
                push_decimal(&mut s, magnitude);
                s
            } else {
                let mut s = String::new();
                push_decimal(&mut s, secs as u64);
                s
            }
        },
    }
}

} // verus!
