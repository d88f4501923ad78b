//! Texts for times and numbers.

use vstd::prelude::*;

use num_format::ToFormattedString;
use std::fmt::Write;

use crate::search::cargo_crate::Timestamp;
use crate::text::{concat2, decimal, to_decimal};

verus! {

/// `a / b` rounded towards zero, for a positive `b`.
pub open spec fn trunc_div(a: int, b: int) -> int {
    if a >= 0 {
        a / b
    } else {
        -((-a) / b)
    }
}

/// The decimal numeral of `n`, with a minus sign where it is negative.
pub open spec fn signed_decimal(n: int) -> Seq<char> {
    if n < 0 {
        "-"@ + decimal((-n) as nat)
    } else {
        decimal(n as nat)
    }
}

/// The whole seconds from `from` to `to`: negative where `to` is the
/// earlier one, and rounded towards zero.
pub open spec fn whole_seconds_between(from: Timestamp, to: Timestamp) -> int {
    trunc_div(
        (to.secs - from.secs) * 1_000_000_000 + (to.nanos - from.nanos),
        1_000_000_000,
    )
}

/// How long ago something happened that lies `seconds` back: in days
/// where that is more than one day, else in hours, minutes or seconds.
pub open spec fn relative_time_text(seconds: int) -> Seq<char> {
    if trunc_div(seconds, 86_400) > 1 {
        decimal(trunc_div(seconds, 86_400) as nat) + " days ago"@
    } else if trunc_div(seconds, 3_600) > 1 {
        decimal(trunc_div(seconds, 3_600) as nat) + " hours ago"@
    } else if seconds > 1 {
        decimal(trunc_div(seconds, 60) as nat) + " minutes ago"@
    } else {
        signed_decimal(seconds) + " seconds ago"@
    }
}

/// The time `t` written out as the pattern `pattern` says, in the
/// notation of `strftime` and in UTC, as the `chrono` crate does it;
/// `None` where the pattern cannot be followed.
pub uninterp spec fn formatted_time(t: Timestamp, pattern: Seq<char>) -> Option<Seq<char>>;

/// The number `n` written as the locale named `locale` writes numbers,
/// with its separators, as the `num_format` crate does it; `None` where
/// the crate knows no locale of that name.
pub uninterp spec fn locale_format(n: u64, locale: Seq<char>) -> Option<Seq<char>>;

/// What is shown for a number: nothing where there is none; else the
/// number as the locale writes it, as English writes it where the locale
/// is not known, and in plain digits where not even that is.
pub open spec fn number_text(
    number: Option<u64>,
    localized: Option<Seq<char>>,
    english: Option<Seq<char>>,
) -> Seq<char> {
    match number {
        None => Seq::empty(),
        Some(n) => match localized {
            Some(s) => s,
            None => match english {
                Some(s) => s,
                None => decimal(n as nat),
            },
        },
    }
}

impl Timestamp {
    /// A timestamp within the years 1 to 9999, with less than a second of
    /// nanoseconds.
    pub open spec fn valid(self) -> bool {
        -62_135_596_800 <= self.secs <= 253_402_300_799 && self.nanos < 1_000_000_000
    }

    /// Whether the timestamp lies within the years 1 to 9999 and has less
    /// than a second of nanoseconds.
    pub fn is_valid(&self) -> (r: bool)
        ensures
            r == self.valid(),
    {
        -62_135_596_800 <= self.secs && self.secs <= 253_402_300_799 && self.nanos
            < 1_000_000_000
    }
}

/// `DateTime::signed_duration_since` and `TimeDelta::num_seconds` of
/// `chrono`. Trusted: the result is the number of whole seconds from
/// `from` to `to`, rounded towards zero.
#[verifier::external_body]
fn seconds_between(from: Timestamp, to: Timestamp) -> (r: i64)
    requires
        from.valid(),
        to.valid(),
    ensures
        r == whole_seconds_between(from, to),
{
    let start = chrono::DateTime::from_timestamp(from.secs, from.nanos).unwrap();
    let end = chrono::DateTime::from_timestamp(to.secs, to.nanos).unwrap();
    end.signed_duration_since(start).num_seconds()
}

/// `DateTime::format` of `chrono`, written out. Trusted: the result is
/// the time as the pattern says, and `None` where writing it out fails.
#[verifier::external_body]
fn format_time(t: Timestamp, pattern: &str) -> (r: Option<String>)
    requires
        t.valid(),
    ensures
        match r {
            Some(s) => formatted_time(t, pattern@) == Some(s@),
            None => formatted_time(t, pattern@).is_none(),
        },
{
    let time = chrono::DateTime::from_timestamp(t.secs, t.nanos).unwrap();
    let mut out = String::new();
    match write!(out, "{}", time.format(pattern)) {
        Ok(()) => Some(out),
        Err(_) => None,
    }
}

/// `Locale::from_name` and `ToFormattedString::to_formatted_string` of
/// `num_format`. Trusted: the result is the number as the named locale
/// writes it, and `None` where the crate knows no locale of that name.
#[verifier::external_body]
fn format_in_locale(n: u64, locale: &str) -> (r: Option<String>)
    ensures
        match r {
            Some(s) => locale_format(n, locale@) == Some(s@),
            None => locale_format(n, locale@).is_none(),
        },
{
    match num_format::Locale::from_name(locale) {
        Ok(l) => Some(n.to_formatted_string(&l)),
        Err(_) => None,
    }
}

/// The decimal numeral of `n`, with a minus sign where it is negative.
pub fn to_signed_decimal(n: i64) -> (r: String)
    ensures
        r@ == signed_decimal(n as int),
{
    if n < 0 {
        let magnitude: u64 = ((-(n + 1)) as u64) + 1;
        let digits = to_decimal(magnitude);
        concat2("-", digits.as_str())
    } else {
        to_decimal(n as u64)
    }
}

/// How long ago something happened that lies `seconds` back.
pub fn relative_time(seconds: i64) -> (r: String)
    ensures
        r@ == relative_time_text(seconds as int),
{
    let days: i64 = seconds / 86_400;
    let hours: i64 = seconds / 3_600;
    let minutes: i64 = seconds / 60;
    if days > 1 {
        let mut s = to_decimal(days as u64);
        s.append(" days ago");
        s
    } else if hours > 1 {
        let mut s = to_decimal(hours as u64);
        s.append(" hours ago");
        s
    } else if seconds > 1 {
        let mut s = to_decimal(minutes as u64);
        s.append(" minutes ago");
        s
    } else {
        let mut s = to_signed_decimal(seconds);
        s.append(" seconds ago");
        s
    }
}

/// What is shown for a number, given how the locale and how English
/// write it.
pub fn number_text_of(number: Option<u64>, localized: Option<String>, english: Option<String>) -> (r:
    String)
    ensures
        r@ == number_text(
            number,
            match localized {
                Some(s) => Some(s@),
                None => None,
            },
            match english {
                Some(s) => Some(s@),
                None => None,
            },
        ),
{
    match number {
        None => String::new(),
        Some(n) => match localized {
            Some(s) => s,
            None => match english {
                Some(s) => s,
                None => to_decimal(n),
            },
        },
    }
}

/// The pattern in which dates are shown: day, month and year, then the
/// time of day.
pub open spec fn date_pattern() -> Seq<char> {
    "%d/%m/%Y %H:%M:%S (UTC)"@
}

/// The text of a date: the time as the date pattern says, and nothing
/// where the time is not one that can be shown.
pub open spec fn date_text(t: Timestamp) -> Seq<char> {
    if t.valid() {
        match formatted_time(t, date_pattern()) {
            Some(s) => s,
            None => Seq::empty(),
        }
    } else {
        Seq::empty()
    }
}

/// The text of a date.
pub fn date_text_of(t: Timestamp) -> (r: String)
    ensures
        r@ == date_text(t),
{
    if t.is_valid() {
        match format_time(t, "%d/%m/%Y %H:%M:%S (UTC)") {
            Some(s) => s,
            None => String::new(),
        }
    } else {
        String::new()
    }
}

/// Formatting helpers.
#[derive(Debug, Clone, Copy, PartialEq, Eq, Structural)]
pub struct Util;

impl Util {
    /// Gets the elapsed time between two times as a human-readable
    /// string.
    pub fn get_relative_time(date_time: Timestamp, since: Timestamp) -> (r: String)
        requires
            date_time.valid(),
            since.valid(),
        ensures
            r@ == relative_time_text(whole_seconds_between(date_time, since)),
    {
        relative_time(seconds_between(date_time, since))
    }

    /// Formats a number, adding separators, as the locale named `locale`
    /// writes numbers. No number gives the empty text.
    pub fn format_number(number: Option<u64>, locale: &str) -> (r: String)
        ensures
            r@ == match number {
                Some(n) => number_text(
                    number,
                    locale_format(n, locale@),
                    locale_format(n, "en"@),
                ),
                None => Seq::<char>::empty(),
            },
    {
        match number {
            Some(n) => {
                let localized = format_in_locale(n, locale);
                let english = if localized.is_none() {
                    format_in_locale(n, "en")
                } else {
                    None
                };
                number_text_of(number, localized, english)
            },
            None => String::new(),
        }
    }
}

} // verus!
