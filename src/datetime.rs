use crate::error::FeedError;
use crate::locale::LocaleInfo;
use crate::Redmine;
use crate::text::{contains_char, lower_of, lowercase};
use chrono::{Datelike, TimeZone, Timelike};
use vstd::prelude::*;

verus! {

/// A calendar date, held as year, month and day.
#[derive(Clone, Copy, Debug, PartialEq, Eq, Structural)]
pub struct Date {
    pub year: i32,
    pub month: u32,
    pub day: u32,
}

/// A time of day on the 24-hour clock.
#[derive(Clone, Copy, Debug, PartialEq, Eq, Structural)]
pub struct Time {
    pub hour: u32,
    pub minute: u32,
    pub second: u32,
}

impl Date {
    /// Month and day lie in their calendar ranges.
    pub open spec fn wf(self) -> bool {
        1 <= self.month <= 12 && 1 <= self.day <= 31
    }

    /// The position of the date on a line of days: earlier dates have smaller keys.
    pub open spec fn key(self) -> int {
        (self.year as int) * 512 + (self.month as int) * 32 + (self.day as int)
    }

    /// Whether `self` comes before `other` in the calendar.
    pub fn is_before(&self, other: &Date) -> (r: bool)
        requires
            self.wf(),
            other.wf(),
        ensures
            r == (self.key() < other.key()),
    {
        self.year < other.year || (self.year == other.year && (self.month < other.month || (
        self.month == other.month && self.day < other.day)))
    }
}

impl Time {
    /// Hour, minute and second lie on the 24-hour clock.
    pub open spec fn wf(self) -> bool {
        self.hour < 24 && self.minute < 60 && self.second < 60
    }
}

/// What chrono's `NaiveDate::parse_from_str` gives for a text and a format, as
/// (year, month, day).
pub uninterp spec fn chrono_date(text: Seq<char>, fmt: Seq<char>) -> Option<(int, int, int)>;

/// What chrono's `NaiveTime::parse_from_str` gives for a text and a format, as
/// (hour, minute, second).
pub uninterp spec fn chrono_time(text: Seq<char>, fmt: Seq<char>) -> Option<(int, int, int)>;

/// Whether the regex crate finds `pattern` in `text`.
pub uninterp spec fn regex_finds(pattern: Seq<char>, text: Seq<char>) -> bool;

/// Whether the regex crate's `Regex::new` accepts `pattern`.
pub uninterp spec fn regex_compiles(pattern: Seq<char>) -> bool;

/// Relies on chrono's `NaiveDate::parse_from_str`: the parsed date, which is
/// always a real calendar date.
#[verifier::external_body]
fn naive_date(text: &str, fmt: &str) -> (r: Option<Date>)
    ensures
        r is Some <==> chrono_date(text@, fmt@) is Some,
        r matches Some(d) ==> d.wf() && chrono_date(text@, fmt@) == Some(
            (d.year as int, d.month as int, d.day as int),
        ),
{
    chrono::NaiveDate::parse_from_str(text, fmt).ok().map(
        |d| Date { year: d.year(), month: d.month(), day: d.day() },
    )
}

/// Relies on chrono's `NaiveTime::parse_from_str`: the parsed time, whose hour,
/// minute and second lie on the 24-hour clock.
#[verifier::external_body]
fn naive_time(text: &str, fmt: &str) -> (r: Option<Time>)
    ensures
        r is Some <==> chrono_time(text@, fmt@) is Some,
        r matches Some(t) ==> t.wf() && chrono_time(text@, fmt@) == Some(
            (t.hour as int, t.minute as int, t.second as int),
        ),
{
    chrono::NaiveTime::parse_from_str(text, fmt).ok().map(
        |t| Time { hour: t.hour(), minute: t.minute(), second: t.second() },
    )
}

/// Relies on regex's `Regex::new` and `Regex::is_match`: `None` where the
/// pattern does not compile, else whether it matches the text.
#[verifier::external_body]
fn regex_is_match(pattern: &str, text: &str) -> (r: Option<bool>)
    ensures
        r is Some <==> regex_compiles(pattern@),
        r matches Some(b) ==> b == regex_finds(pattern@, text@),
{
    regex::Regex::new(pattern).ok().map(|re| re.is_match(text))
}

/// Relies on chrono's `Local::from_local_date(..).single()`: whether the date
/// stands for exactly one day in the machine's time zone. That depends on the
/// machine, so nothing is stated of the result.
#[verifier::external_body]
#[allow(deprecated)]
fn is_single_local_date(d: &Date) -> (r: bool) {
    match chrono::NaiveDate::from_ymd_opt(d.year, d.month, d.day) {
        Some(n) => chrono::Local.from_local_date(&n).single().is_some(),
        None => false,
    }
}

pub open spec fn iso_date_pattern() -> Seq<char> {
    "^\\d{4}-\\d{2}-\\d{2}$"@
}

pub open spec fn iso_date_format() -> Seq<char> {
    "%Y-%m-%d"@
}

pub open spec fn clock12_format() -> Seq<char> {
    "%I:%M %p"@
}

pub open spec fn clock24_format() -> Seq<char> {
    "%H:%M"@
}

/// The format that a day header is read with: the ISO one where the text has
/// the ISO shape, else the locale's own.
pub open spec fn date_format_for(date_format: Seq<char>, text: Seq<char>) -> Seq<char> {
    if regex_finds(iso_date_pattern(), text) {
        iso_date_format()
    } else {
        date_format
    }
}

/// The date that a day header names, before the time-zone check: `None` where the
/// chosen format does not fit the text.
pub open spec fn header_date(date_format: Seq<char>, text: Seq<char>) -> Option<(int, int, int)> {
    chrono_date(text, date_format_for(date_format, text))
}

/// Where a text has the ISO shape, the locale's own format plays no part.
pub proof fn lemma_iso_shape_overrides_locale(format_a: Seq<char>, format_b: Seq<char>, text: Seq<char>)
    requires
        regex_finds(iso_date_pattern(), text),
    ensures
        header_date(format_a, text) == header_date(format_b, text),
        header_date(format_a, text) == chrono_date(text, iso_date_format()),
{
}

pub open spec fn date_triple(d: Date) -> (int, int, int) {
    (d.year as int, d.month as int, d.day as int)
}

/// The format that an event time is read with: 12-hour with a meridiem where the
/// text holds a space, else 24-hour.
pub open spec fn time_format_for(text: Seq<char>) -> Seq<char> {
    if text.contains(' ') {
        clock12_format()
    } else {
        clock24_format()
    }
}

impl Redmine {
    /// Reads a day header. The locale's word for "today", in any case, gives `today`;
    /// else the text is read as an ISO date where it has that shape, or with the
    /// locale's date format.
    pub fn parse_date(locale: &LocaleInfo, text: &str, today: Date) -> (r: Result<
        Date,
        FeedError,
    >)
        requires
            today.wf(),
        ensures
            lower_of(text@) == locale.today_word@ ==> r == Ok::<Date, FeedError>(today),
            r matches Err(e) ==> e is DateParse,
            !regex_compiles(iso_date_pattern()) && lower_of(text@) != locale.today_word@ ==> r is Err,
            lower_of(text@) != locale.today_word@ ==> {
                &&& r matches Ok(d) ==> d.wf() && header_date(locale.date_format@, text@) == Some(
                    date_triple(d),
                )
                &&& header_date(locale.date_format@, text@) is None ==> r matches Err(FeedError::DateParse(_))
            },
    {
        let lowered = lowercase(text);
        if lowered == locale.today_word {
            return Ok(today);
        }
        let fmt: &str = match regex_is_match("^\\d{4}-\\d{2}-\\d{2}$", text) {
            Some(true) => "%Y-%m-%d",
            Some(false) => locale.date_format.as_str(),
            None => {
                return Err(FeedError::DateParse(String::from_str(text)));
            },
        };
        match naive_date(text, fmt) {
            Some(d) => {
                if is_single_local_date(&d) {
                    Ok(d)
                } else {
                    Err(FeedError::DateParse(String::from_str(text)))
                }
            },
            None => Err(FeedError::DateParse(String::from_str(text))),
        }
    }

    /// Reads an event time: `hh:mm AM/PM` where the text holds a space, else `HH:MM`.
    pub fn parse_time(text: &str) -> (r: Result<Time, FeedError>)
        ensures
            r matches Ok(t) ==> t.wf() && chrono_time(text@, time_format_for(text@)) == Some(
                (t.hour as int, t.minute as int, t.second as int),
            ),
            r is Err <==> chrono_time(text@, time_format_for(text@)) is None,
            r matches Err(e) ==> e is TimeParse,
    {
        let fmt: &str = if contains_char(text, ' ') {
            "%I:%M %p"
        } else {
            "%H:%M"
        };
        match naive_time(text, fmt) {
            Some(t) => Ok(t),
            None => Err(FeedError::TimeParse(String::from_str(text))),
        }
    }
}

} // verus!
