//! Calendar services of the `chrono` crate, over `i64` stamps (seconds since
//! 1970-01-01 00:00:00 of the local wall clock, read without a zone).

use vstd::prelude::*;
use crate::calendar::days_in_month;
use crate::models::stamp_ok;
use chrono::{Datelike, Timelike};

verus! {

/// The patterns in which stamps are written.
#[derive(Debug, Clone, Copy, PartialEq, Eq, Structural)]
pub enum StampFormat {
    /// `%Y-%m-%d`
    Date,
    /// `%H:%M`
    Clock,
    /// `%H:%M:%S`
    ClockSeconds,
    /// `%Y-%m-%d %H:%M`
    DateClock,
    /// `%Y-%m-%d %H:%M:%S`
    DateClockSeconds,
    /// `%Y-%m-%dT%H:%M:%S`, the form the store keeps
    Stored,
    /// `%a`, the abbreviated weekday name
    Weekday,
    /// `%Y%m%d-%H%M%S`, the stamp in the names of exported files
    FileStamp,
}

/// The strftime pattern of a stamp format.
pub open spec fn pattern_text(f: StampFormat) -> Seq<char> {
    match f {
        StampFormat::Date => seq!['%', 'Y', '-', '%', 'm', '-', '%', 'd'],
        StampFormat::Clock => seq!['%', 'H', ':', '%', 'M'],
        StampFormat::ClockSeconds => seq!['%', 'H', ':', '%', 'M', ':', '%', 'S'],
        StampFormat::DateClock => seq!['%', 'Y', '-', '%', 'm', '-', '%', 'd', ' ', '%', 'H', ':', '%', 'M'],
        StampFormat::DateClockSeconds => seq![
            '%', 'Y', '-', '%', 'm', '-', '%', 'd', ' ', '%', 'H', ':', '%', 'M', ':', '%', 'S',
        ],
        StampFormat::Stored => seq![
            '%', 'Y', '-', '%', 'm', '-', '%', 'd', 'T', '%', 'H', ':', '%', 'M', ':', '%', 'S',
        ],
        StampFormat::Weekday => seq!['%', 'a'],
        StampFormat::FileStamp => seq![
            '%', 'Y', '%', 'm', '%', 'd', '-', '%', 'H', '%', 'M', '%', 'S',
        ],
    }
}

impl StampFormat {
    /// The strftime pattern.
    pub fn pattern(&self) -> (p: &'static str)
        ensures
            p@ == pattern_text(*self),
    {
        proof {
            reveal_strlit("%Y-%m-%d");
            reveal_strlit("%H:%M");
            reveal_strlit("%H:%M:%S");
            reveal_strlit("%Y-%m-%d %H:%M");
            reveal_strlit("%Y-%m-%d %H:%M:%S");
            reveal_strlit("%Y-%m-%dT%H:%M:%S");
            reveal_strlit("%a");
            reveal_strlit("%Y%m%d-%H%M%S");
        }
        match self {
            StampFormat::Date => "%Y-%m-%d",
            StampFormat::Clock => "%H:%M",
            StampFormat::ClockSeconds => "%H:%M:%S",
            StampFormat::DateClock => "%Y-%m-%d %H:%M",
            StampFormat::DateClockSeconds => "%Y-%m-%d %H:%M:%S",
            StampFormat::Stored => "%Y-%m-%dT%H:%M:%S",
            StampFormat::Weekday => "%a",
            StampFormat::FileStamp => "%Y%m%d-%H%M%S",
        }
    }
}

/// The text `chrono` writes for stamp `t` in strftime pattern `pattern`
/// (empty for a stamp outside the calendar's range).
pub uninterp spec fn formatted_stamp(t: i64, pattern: Seq<char>) -> Seq<char>;

/// `NaiveDateTime::format` of the date-time at stamp `t`, written out.
/// The text is named `formatted_stamp`; of it the contract states only that
/// it is short: every field of these patterns is at most seven characters
/// (a year within `chrono`'s range of ±262143, with its sign), and a stamp
/// the calendar cannot hold gives the empty text.
#[verifier::external_body]
pub(crate) fn format_stamp(t: i64, format: StampFormat) -> (r: String)
    ensures
        r@ == formatted_stamp(t, pattern_text(format)),
        r@.len() <= 32,
{
    match chrono::DateTime::from_timestamp(t, 0) {
        Some(d) => d.naive_utc().format(format.pattern()).to_string(),
        None => String::new(),
    }
}

/// The stamp of midnight of the date that `chrono` reads from `text` in the
/// pattern `%Y-%m-%d`, if it reads one.
pub uninterp spec fn parsed_date(text: Seq<char>) -> Option<i64>;

/// `NaiveDate::parse_from_str(text, "%Y-%m-%d")`, as the stamp of that
/// date's midnight. A date `chrono` returns lies within its calendar (years
/// ±262143), so its stamp is in range and a whole number of days.
#[verifier::external_body]
pub(crate) fn parse_date(text: &str) -> (r: Option<i64>)
    ensures
        r == parsed_date(text@),
        r matches Some(t) ==> stamp_ok(t) && t % 86400 == 0,
{
    chrono::NaiveDate::parse_from_str(text, "%Y-%m-%d").ok().map(
        |d| d.and_time(chrono::NaiveTime::MIN).and_utc().timestamp(),
    )
}

/// The seconds after midnight of the time of day that `chrono` reads from
/// `text` in the pattern `%H:%M`, if it reads one.
pub uninterp spec fn parsed_clock(text: Seq<char>) -> Option<i64>;

/// `NaiveTime::parse_from_str(text, "%H:%M")`, as seconds after midnight
/// (`num_seconds_from_midnight`, which lies in `0..86400`).
#[verifier::external_body]
pub(crate) fn parse_clock(text: &str) -> (r: Option<i64>)
    ensures
        r == parsed_clock(text@),
        r matches Some(s) ==> 0 <= s < 86400,
{
    chrono::NaiveTime::parse_from_str(text, "%H:%M").ok().map(
        |t| t.num_seconds_from_midnight() as i64,
    )
}

/// The stamp of the date-time that `chrono` reads from `text` in the
/// strftime pattern `pattern`, if it reads one.
pub uninterp spec fn parsed_date_time(text: Seq<char>, pattern: Seq<char>) -> Option<i64>;

/// `NaiveDateTime::parse_from_str(text, pattern)`, as a stamp. A date-time
/// `chrono` returns lies within its calendar, so its stamp is in range.
#[verifier::external_body]
pub(crate) fn parse_date_time(text: &str, format: StampFormat) -> (r: Option<i64>)
    ensures
        r == parsed_date_time(text@, pattern_text(format)),
        r matches Some(t) ==> stamp_ok(t),
{
    chrono::NaiveDateTime::parse_from_str(text, format.pattern()).ok().map(
        |d| d.and_utc().timestamp(),
    )
}

/// Year, month and day of the date at stamp `t`, as `chrono` reckons them.
pub uninterp spec fn civil_date(t: i64) -> (i32, u32, u32);

/// `Datelike::year`, `month` and `day` of the date-time at stamp `t`. Months
/// run from 1 to 12, and the day is a day of that month in the proleptic
/// Gregorian calendar `chrono` documents (a `NaiveDate` is always a valid
/// date). The stamp must lie within the calendar (about ±8.2e12 seconds;
/// here ±2^41).
#[verifier::external_body]
pub(crate) fn civil_of(t: i64) -> (r: (i32, u32, u32))
    requires
        -0x200_0000_0000 <= t <= 0x200_0000_0000,
    ensures
        r == civil_date(t),
        1 <= r.1 <= 12,
        1 <= r.2 <= days_in_month(r.0 as int, r.1 as int),
{
    let d = chrono::DateTime::from_timestamp(t, 0).unwrap().naive_utc();
    (d.year(), d.month(), d.day())
}

} // verus!
