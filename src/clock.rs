//! The system clock and the text of an instant, as chrono gives them.

use vstd::prelude::*;
use std::fmt::Write;

verus! {

/// Every clock reading, in milliseconds since the Unix epoch, lies below this
/// bound: chrono represents instants up to the year 262142.
pub const CLOCK_LIMIT_MS: i64 = 10_000_000_000_000_000;

/// Every instant within this many seconds of the Unix epoch (about 253,000
/// years either way) lies in chrono's range of instants.
pub const LABEL_LIMIT_SECS: i64 = 8_000_000_000_000;

/// The strftime-style pattern in which an instant is shown:
/// "May 15 2015 12:00 AM".
pub open spec fn time_label_pattern() -> Seq<char> {
    "%h %d %Y %I:%M %p"@
}

/// The text that chrono writes for the instant `secs` seconds after the Unix
/// epoch (UTC) under the strftime-style `pattern`.
pub uninterp spec fn utc_text(secs: int, pattern: Seq<char>) -> Seq<char>;

/// Relies on chrono::Utc::now and DateTime::timestamp_millis: the system
/// clock read as milliseconds since the Unix epoch. `Utc::now` panics on a
/// clock set before the epoch, so a reading is never negative, and it lies
/// within chrono's range of years (at most 262142), below `CLOCK_LIMIT_MS`.
#[verifier::external_body]
pub(crate) fn now_millis() -> (r: i64)
    ensures
        0 <= r < CLOCK_LIMIT_MS,
{
    chrono::Utc::now().timestamp_millis()
}

/// Relies on chrono::DateTime::from_timestamp, which gives `None` outside
/// chrono's range of instants, and on writing DateTime::format, which fails
/// on a pattern that chrono cannot read. The text depends on the instant and
/// the pattern alone. chrono represents every instant within
/// `LABEL_LIMIT_SECS` of the epoch (years -262143 to 262142), and it reads
/// each item of `time_label_pattern` (`%h`, `%d`, `%Y`, `%I`, `%M`, `%p`),
/// whose writing has no failing case for such an instant.
#[verifier::external_body]
pub(crate) fn format_utc_seconds(secs: i64, pattern: &str) -> (r: Option<String>)
    ensures
        r is Some ==> r->0@ == utc_text(secs as int, pattern@),
        -LABEL_LIMIT_SECS <= secs <= LABEL_LIMIT_SECS && pattern@ == time_label_pattern()
            ==> r is Some,
{
    let instant = chrono::DateTime::from_timestamp(secs, 0)?;
    let mut out = String::new();
    write!(out, "{}", instant.format(pattern)).ok()?;
    Some(out)
}

} // verus!
