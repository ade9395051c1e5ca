//! The time stamp of a log line.

use std::fmt::Write;
use vstd::prelude::*;

verus! {

/// The text that `chrono` writes for the instant `unix_seconds` seconds after
/// the start of 1970 in UTC, with the given `strftime` pattern. Nothing for
/// an instant outside the range of dates that `chrono` holds, and nothing for
/// a pattern that it does not accept.
pub uninterp spec fn utc_timestamp_text(unix_seconds: i64, pattern: Seq<char>) -> Option<Seq<char>>;

/// The pattern of the time stamp of a log line: day, abbreviated month name
/// and year, separated by `/`, then hour, minute and second.
pub open spec fn log_time_pattern() -> Seq<char> {
    "%d/%b/%Y %T"@
}

/// An instant of the years 0 to 9999.
pub open spec fn is_ordinary_instant(unix_seconds: i64) -> bool {
    -62_167_219_200 <= unix_seconds <= 253_402_300_799
}

/// `chrono::DateTime::from_timestamp` followed by `DateTime::format`. Both
/// depend on the number of seconds and on the pattern alone: the instant is
/// taken in UTC and the month names are the English ones. `from_timestamp`
/// accepts every instant whose year `chrono` can hold, far more than the
/// years 0 to 9999, and the pattern of the log line holds only items that
/// are written for every date and time.
#[verifier::external_body]
pub(crate) fn format_utc(unix_seconds: i64, pattern: &str) -> (text: Option<String>)
    ensures
        text is Some == utc_timestamp_text(unix_seconds, pattern@) is Some,
        text matches Some(written) ==> utc_timestamp_text(unix_seconds, pattern@) == Some(
            written@,
        ),
        is_ordinary_instant(unix_seconds) && pattern@ == log_time_pattern() ==> text is Some,
{
    let instant = chrono::DateTime::from_timestamp(unix_seconds, 0)?;
    let mut text = String::new();
    match write!(text, "{}", instant.format(pattern)) {
        Ok(()) => Some(text),
        Err(_) => None,
    }
}

} // verus!
