//! Human readable times: relative ("3 days ago") or formatted with chrono.

use std::fmt::Write;

use chrono::TimeZone;
use vstd::prelude::*;

use crate::cli::error::CliError;
use crate::text::{dec, u64_text};

verus! {

/// A point in time as git records it: seconds since the epoch and the offset of
/// the author's timezone.
#[derive(Clone, Copy, PartialEq, Eq, Structural, Debug)]
pub struct GitTime {
    pub seconds: i64,
    pub offset_minutes: i32,
}

/// How to display a time.
#[derive(Debug)]
pub struct DisplayTimeOptions {
    /// False for absolute, true for relative
    pub relative: bool,
    /// The chrono format string used for absolute times
    pub fmt: String,
}

/// The format used when none is configured, e.g. "May 11, 2026 at 4:44 PM".
pub open spec fn default_time_format() -> Seq<char> {
    "%b %d, %Y at %-I:%M %p"@
}

impl Default for DisplayTimeOptions {
    fn default() -> (res: Self)
        ensures
            !res.relative,
            res.fmt@ == default_time_format(),
    {
        DisplayTimeOptions { relative: false, fmt: String::from_str("%b %d, %Y at %-I:%M %p") }
    }
}

pub open spec fn minute() -> int { 60int }
pub open spec fn hour() -> int { 3600int }
pub open spec fn day() -> int { 86400int }
pub open spec fn week() -> int { 604800int }
pub open spec fn month() -> int { 2592000int }
pub open spec fn year() -> int { 31536000int }

/// `n` followed by `unit`.
pub open spec fn count_text(n: int, unit: Seq<char>) -> Seq<char> {
    dec(n as nat) + unit
}

/// How long ago something happened, `s` seconds ago; this roughly matches
/// git log's relative time format.
pub open spec fn relative_text(s: int) -> Seq<char> {
    if s < 2 {
        "1 second ago"@
    } else if s < minute() {
        count_text(s, " seconds ago"@)
    } else if s < 2 * minute() {
        "1 minute ago"@
    } else if s < hour() {
        count_text(s / minute(), " minutes ago"@)
    } else if s < 2 * hour() {
        "1 hour ago"@
    } else if s < day() {
        count_text(s / hour(), " hours ago"@)
    } else if s < 2 * day() {
        "yesterday"@
    } else if s < week() {
        count_text(s / day(), " days ago"@)
    } else if s < 2 * week() {
        "1 week ago"@
    } else if s < month() {
        count_text(s / week(), " weeks ago"@)
    } else if s < 2 * month() {
        "1 month ago"@
    } else if s < year() {
        count_text(s / month(), " months ago"@)
    } else if s < 2 * year() {
        "1 year ago"@
    } else {
        count_text(s / year(), " years ago"@)
    }
}

/// How long ago `then` was at `now`.
pub open spec fn relative_from(now: i64, then: i64) -> Seq<char> {
    relative_text(now - then)
}

fn count(n: u64, unit: &str) -> (res: String)
    ensures
        res@ == count_text(n as int, unit@),
{
    let s = u64_text(n);
    s.concat(unit)
}

/// Describes how long ago a time was, given the current time.
pub fn relative_time_since(now: i64, then: i64) -> (res: String)
    ensures
        res@ == relative_from(now, then),
{
    let s: i128 = now as i128 - then as i128;
    if s < 2 {
        String::from_str("1 second ago")
    } else if s < 60 {
        count(s as u64, " seconds ago")
    } else if s < 120 {
        String::from_str("1 minute ago")
    } else if s < 3600 {
        count((s / 60) as u64, " minutes ago")
    } else if s < 7200 {
        String::from_str("1 hour ago")
    } else if s < 86400 {
        count((s / 3600) as u64, " hours ago")
    } else if s < 172800 {
        String::from_str("yesterday")
    } else if s < 604800 {
        count((s / 86400) as u64, " days ago")
    } else if s < 1209600 {
        String::from_str("1 week ago")
    } else if s < 2592000 {
        count((s / 604800) as u64, " weeks ago")
    } else if s < 5184000 {
        String::from_str("1 month ago")
    } else if s < 31536000 {
        count((s / 2592000) as u64, " months ago")
    } else if s < 63072000 {
        String::from_str("1 year ago")
    } else {
        count((s / 31536000) as u64, " years ago")
    }
}

/// Calls `SystemTime::now().duration_since(UNIX_EPOCH)` and casts the whole
/// seconds to `i64`. The current time is not a function of
/// anything the library holds, so nothing is stated of it; it is `None` when
/// the clock is before the epoch.
#[verifier::external_body]
fn now_unix_seconds() -> (res: Option<i64>)
{
    match std::time::SystemTime::now().duration_since(std::time::UNIX_EPOCH) {
        Ok(d) => Some(d.as_secs() as i64),
        Err(_) => None,
    }
}

/// Describes how long ago `time` was, measured against the system clock.
pub fn display_time_relative(time: &GitTime) -> (res: Result<String, CliError>)
    ensures
        res matches Ok(s) ==> exists|now: i64| s@ == #[trigger] relative_from(now, time.seconds),
        res matches Err(e) ==> e matches CliError::Generic(m) && m@ == "Failed to get current time"@,
{
    match now_unix_seconds() {
        Some(now) => Ok(relative_time_since(now, time.seconds)),
        None => Err(CliError::Generic(String::from_str("Failed to get current time"))),
    }
}

/// What chrono writes for the instant `secs` in the fixed offset `offset_secs`
/// (seconds east of UTC) with the format `fmt`; `None` when chrono rejects the
/// offset, the instant or the format.
pub uninterp spec fn formatted_time(secs: i64, offset_secs: i32, fmt: Seq<char>) -> Option<Seq<char>>;

/// Calls chrono: `FixedOffset::east_opt`, `timestamp_opt(..).single()` and
/// writes `format(fmt)`. The output is named; chrono documents that
/// `east_opt` returns `None` outside (-86400, 86400) seconds.
#[verifier::external_body]
fn format_timestamp(secs: i64, offset_secs: i32, fmt: &str) -> (res: Option<String>)
    ensures
        res is Some <==> formatted_time(secs, offset_secs, fmt@) is Some,
        res matches Some(s) ==> formatted_time(secs, offset_secs, fmt@) == Some(s@),
        !(-86400 < offset_secs && offset_secs < 86400) ==> res is None,
{
    let tz = chrono::FixedOffset::east_opt(offset_secs)?;
    let date = tz.timestamp_opt(secs, 0).single()?;
    let mut out = String::new();
    write!(out, "{}", date.format(fmt)).ok()?;
    Some(out)
}

/// Formats `time` in its own timezone with the chrono format `fmt`, which
/// defaults to "%b %d, %Y at %-I:%M %p" ("May 11, 2026 at 4:44 PM").
pub fn display_time_absolute(time: &GitTime, fmt: &str) -> (res: Result<String, CliError>)
    requires
        -35791394 <= time.offset_minutes <= 35791394,
    ensures
        res matches Ok(s) ==> formatted_time(time.seconds, (time.offset_minutes * 60) as i32, fmt@) == Some(s@),
        res is Err <==> formatted_time(time.seconds, (time.offset_minutes * 60) as i32, fmt@) is None,
        res matches Err(e) ==> e matches CliError::Generic(m) && m@ == "Failed to format time to local timezone"@,
{
    match format_timestamp(time.seconds, time.offset_minutes * 60, fmt) {
        Some(s) => Ok(s),
        None => Err(CliError::Generic(String::from_str("Failed to format time to local timezone"))),
    }
}

/// Displays a human readable time, relative or absolute as the options say.
pub fn display_time(time: &GitTime, options: &DisplayTimeOptions) -> (res: Result<String, CliError>)
    requires
        -35791394 <= time.offset_minutes <= 35791394,
    ensures
        options.relative ==> (res matches Ok(s) ==> exists|now: i64| s@ == #[trigger] relative_from(now, time.seconds)),
        !options.relative ==> (res matches Ok(s) ==> formatted_time(time.seconds, (time.offset_minutes * 60) as i32, options.fmt@) == Some(s@)),
        !options.relative ==> (res is Err <==> formatted_time(time.seconds, (time.offset_minutes * 60) as i32, options.fmt@) is None),
{
    if options.relative {
        display_time_relative(time)
    } else {
        display_time_absolute(time, options.fmt.as_str())
    }
}

} // verus!
