//! Rendering of UTC timestamps, done by `chrono`.
use vstd::prelude::*;

verus! {

/// The text that `chrono` renders for the UTC instant `secs` seconds after
/// the Unix epoch with the `strftime` pattern `pattern`; `None` when the
/// instant is outside the range of `chrono::DateTime<Utc>`.
pub uninterp spec fn utc_timestamp_text(secs: int, pattern: Seq<char>) -> Option<Seq<char>>;

/// Instants well inside the range that `chrono` represents (about 253 000
/// years around the epoch).
pub open spec fn in_chrono_range(secs: int) -> bool {
    -8_000_000_000_000 <= secs <= 8_000_000_000_000
}

/// The patterns the pages use: a date and minute, or a date.
pub open spec fn is_stamp_pattern(pattern: Seq<char>) -> bool {
    pattern == "%Y-%m-%d %H:%M UTC"@ || pattern == "%Y-%m-%d"@
}

/// Renders the UTC instant `secs` with `pattern`, through
/// `chrono::DateTime::<Utc>::from_timestamp(secs, 0)` and `format(pattern)`.
/// The contract names the result [`utc_timestamp_text`] and states what the
/// source of `from_timestamp` shows: it succeeds for every instant within
/// [`in_chrono_range`] (the range of `NaiveDate`, years -262142 to 262142,
/// is wider). The digits `chrono` writes are not stated. The pattern is one
/// of the library's, which `chrono` renders without a formatting error.
#[verifier::external_body]
fn format_utc_timestamp(secs: i64, pattern: &str) -> (text: Option<String>)
    requires
        is_stamp_pattern(pattern@),
    ensures
        match text {
            Some(t) => utc_timestamp_text(secs as int, pattern@) == Some(t@),
            None => utc_timestamp_text(secs as int, pattern@) is None,
        },
        in_chrono_range(secs as int) ==> text is Some,
{
    match chrono::DateTime::from_timestamp(secs, 0) {
        Some(time) => Some(time.format(pattern).to_string()),
        None => None,
    }
}

/// `YYYY-MM-DD HH:MM UTC` for the instant `secs`.
pub fn utc_minute_stamp(secs: i64) -> (text: String)
    requires
        in_chrono_range(secs as int),
    ensures
        utc_timestamp_text(secs as int, "%Y-%m-%d %H:%M UTC"@) == Some(text@),
{
    match format_utc_timestamp(secs, "%Y-%m-%d %H:%M UTC") {
        Some(t) => t,
        None => String::new(),
    }
}

/// `YYYY-MM-DD` for the instant `secs`.
pub fn utc_date_stamp(secs: i64) -> (text: String)
    requires
        in_chrono_range(secs as int),
    ensures
        utc_timestamp_text(secs as int, "%Y-%m-%d"@) == Some(text@),
{
    match format_utc_timestamp(secs, "%Y-%m-%d") {
        Some(t) => t,
        None => String::new(),
    }
}

} // verus!
