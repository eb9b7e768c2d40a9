//! Time stamps: UTC instants, given as seconds and nanoseconds since the Unix
//! epoch, printed by chrono.
use vstd::prelude::*;
use crate::text::opt_view;

verus! {

/// What chrono prints for the UTC instant `secs`/`nanos` with a strftime
/// pattern; none when chrono has no such instant.
pub uninterp spec fn utc_formatted(secs: i64, nanos: u32, pattern: Seq<char>) -> Option<Seq<char>>;

/// What chrono's `to_rfc3339` prints for the UTC instant `secs`/`nanos`; none
/// when chrono has no such instant.
pub uninterp spec fn utc_rfc3339(secs: i64, nanos: u32) -> Option<Seq<char>>;

/// An instant chrono can place: within about 253,000 years of the epoch (its
/// dates reach about 262,000 years either way), with a nanosecond count below
/// one second, or below two seconds in the last second of a minute (a leap
/// second).
pub open spec fn placeable(secs: i64, nanos: u32) -> bool {
    &&& -8_000_000_000_000 <= secs <= 8_000_000_000_000
    &&& (nanos < 1_000_000_000 || (nanos < 2_000_000_000 && secs % 60 == 59))
}

/// The strftime patterns the console prints time stamps with.
pub open spec fn known_pattern(p: Seq<char>) -> bool {
    p == "%A, %B %d, %Y"@ || p == "%H:%M UTC"@ || p == "%Y-%m-%d %H:%M:%S"@ || p == "%b %d"@
}

/// Calls `DateTime::from_timestamp(secs, nanos)` and formats the instant with
/// `format(pattern).to_string()`; the result is named by `utc_formatted`. The
/// pattern is one of the console's, all of which chrono can print; an instant
/// chrono can place is always printed (`from_timestamp` gives `None` only for
/// days outside its date range or an invalid time of day).
#[verifier::external_body]
pub(crate) fn utc_format(secs: i64, nanos: u32, pattern: &str) -> (res: Option<String>)
    requires
        known_pattern(pattern@),
    ensures
        opt_view(res) == utc_formatted(secs, nanos, pattern@),
        placeable(secs, nanos) ==> res is Some,
{
    match chrono::DateTime::from_timestamp(secs, nanos) {
        Some(dt) => Some(dt.format(pattern).to_string()),
        None => None,
    }
}

/// Calls `DateTime::from_timestamp(secs, nanos)` and then `to_rfc3339`; the
/// result is named by `utc_rfc3339`; an instant chrono can place is always
/// printed.
#[verifier::external_body]
pub(crate) fn utc_rfc3339_text(secs: i64, nanos: u32) -> (res: Option<String>)
    ensures
        opt_view(res) == utc_rfc3339(secs, nanos),
        placeable(secs, nanos) ==> res is Some,
{
    match chrono::DateTime::from_timestamp(secs, nanos) {
        Some(dt) => Some(dt.to_rfc3339()),
        None => None,
    }
}

} // verus!
