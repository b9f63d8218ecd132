//! Calendar dates and times of day as plain numbers, read and written by
//! the `chrono` crate.
//!
//! The journal stores dates as text. `chrono` decides what a text means and
//! how a date is written out; this module only carries the numbers between
//! the two. What `chrono` returns is named here, not restated: the contracts
//! of the callers speak of those names.

use vstd::prelude::*;
use chrono::{Datelike, Timelike};

verus! {

/// A day of the calendar.
#[derive(Debug, Clone, Copy, PartialEq, Eq, Structural)]
pub struct Day {
    pub year: i32,
    pub month: u32,
    pub day: u32,
}

/// A day and a time on it. A leap second is held as `chrono` holds it: in
/// a `nanosecond` of a billion or more.
#[derive(Debug, Clone, Copy, PartialEq, Eq, Structural)]
pub struct Moment {
    pub day: Day,
    pub hour: u32,
    pub minute: u32,
    pub second: u32,
    pub nanosecond: u32,
}

/// The day that `chrono` reads from `text` under `pattern`, if it reads one.
pub uninterp spec fn parsed_day(text: Seq<char>, pattern: Seq<char>) -> Option<Day>;

/// The moment that `chrono` reads from `text` under `pattern`, if it reads
/// one.
pub uninterp spec fn parsed_moment(text: Seq<char>, pattern: Seq<char>) -> Option<Moment>;

/// `day` written by `chrono` under `pattern`; nothing if there is no such
/// day or the pattern cannot be written for a day.
pub uninterp spec fn formatted_day(day: Day, pattern: Seq<char>) -> Option<Seq<char>>;

/// `at` written by `chrono` under `pattern`; nothing if there is no such
/// moment or the pattern cannot be written for it.
pub uninterp spec fn formatted_moment(at: Moment, pattern: Seq<char>) -> Option<Seq<char>>;

/// Calls `chrono::NaiveDate::parse_from_str` and hands back the year, month
/// and day of the date it returns, or nothing where it returns an error.
/// Not proved: that the result is `parsed_day`, which is a name for exactly
/// this.
#[verifier::external_body]
pub(crate) fn parse_day(text: &str, pattern: &str) -> (r: Option<Day>)
    ensures
        r == parsed_day(text@, pattern@),
{
    match chrono::NaiveDate::parse_from_str(text, pattern) {
        Ok(d) => Some(Day { year: d.year(), month: d.month(), day: d.day() }),
        Err(_) => None,
    }
}

/// Calls `chrono::NaiveDateTime::parse_from_str` and hands back the fields
/// of the date and time it returns, or nothing where it returns an error.
/// Not proved: that the result is `parsed_moment`, which is a name for
/// exactly this.
#[verifier::external_body]
pub(crate) fn parse_moment(text: &str, pattern: &str) -> (r: Option<Moment>)
    ensures
        r == parsed_moment(text@, pattern@),
{
    match chrono::NaiveDateTime::parse_from_str(text, pattern) {
        Ok(t) => Some(
            Moment {
                day: Day { year: t.year(), month: t.month(), day: t.day() },
                hour: t.hour(),
                minute: t.minute(),
                second: t.second(),
                nanosecond: t.nanosecond(),
            },
        ),
        Err(_) => None,
    }
}

/// Calls `chrono::NaiveDate::format` on the date with the numbers of `day`
/// and writes the outcome to a string; nothing where `chrono` knows no such
/// date or reports an error while writing. Not proved: that the result is
/// `formatted_day`, which is a name for exactly this.
#[verifier::external_body]
pub(crate) fn day_text(day: Day, pattern: &str) -> (r: Option<String>)
    ensures
        r.deep_view() == formatted_day(day, pattern@),
{
    let d = chrono::NaiveDate::from_ymd_opt(day.year, day.month, day.day)?;
    let mut out = String::new();
    d.format(pattern).write_to(&mut out).ok()?;
    Some(out)
}

/// Calls `chrono::NaiveDateTime::format` on the date and time with the
/// numbers of `at` and writes the outcome to a string; nothing where
/// `chrono` knows no such moment or reports an error while writing. Not
/// proved: that the result is `formatted_moment`, which is a name for
/// exactly this.
#[verifier::external_body]
pub(crate) fn moment_text(at: Moment, pattern: &str) -> (r: Option<String>)
    ensures
        r.deep_view() == formatted_moment(at, pattern@),
{
    let d = chrono::NaiveDate::from_ymd_opt(at.day.year, at.day.month, at.day.day)?;
    let t = d.and_hms_nano_opt(at.hour, at.minute, at.second, at.nanosecond)?;
    let mut out = String::new();
    t.format(pattern).write_to(&mut out).ok()?;
    Some(out)
}

} // verus!
