//! Calendar computations delegated to `chrono`.
use chrono::TimeZone;
use vstd::prelude::*;

verus! {

/// Whether `chrono` can represent the instant `secs` seconds after the Unix
/// epoch (its calendar is bounded).
pub uninterp spec fn utc_seconds_representable(secs: int) -> bool;

/// The instant an RFC 3339 text denotes, as seconds since the Unix epoch and
/// nanoseconds into that second, when `chrono` accepts the text.
pub uninterp spec fn rfc3339_instant(s: Seq<char>) -> Option<(i64, u32)>;

/// How `chrono` writes the instant `secs` seconds after the Unix epoch in
/// UTC with the pattern `%Y-%m-%d %H:%M:%S`.
pub uninterp spec fn utc_calendar_text(secs: int) -> Seq<char>;

/// Calls `Utc.timestamp_opt(secs, 0)` and, when it gives a single instant,
/// formats it with `%Y-%m-%d %H:%M:%S`; the contract only names the text
/// (the calendar is not written out here).
#[verifier::external_body]
pub(crate) fn format_utc_seconds(secs: i64) -> (r: Option<String>)
    ensures
        r is Some <==> utc_seconds_representable(secs as int),
        r matches Some(t) ==> t@ == utc_calendar_text(secs as int),
{
    match chrono::Utc.timestamp_opt(secs, 0).single() {
        Some(dt) => Some(dt.format("%Y-%m-%d %H:%M:%S").to_string()),
        None => None,
    }
}

/// Calls `Utc.timestamp_opt(secs, 0)` and tells whether it gave a single
/// instant; the contract only names the answer (the calendar's bounds are
/// not written out here).
#[verifier::external_body]
pub(crate) fn seconds_representable(secs: i64) -> (r: bool)
    ensures
        r == utc_seconds_representable(secs as int),
{
    chrono::Utc.timestamp_opt(secs, 0).single().is_some()
}

/// Calls `DateTime::parse_from_rfc3339` and converts the instant to UTC
/// seconds and nanoseconds; the contract only names the result (the
/// grammar of RFC 3339 is not written out here).
#[verifier::external_body]
pub(crate) fn parse_rfc3339(s: &str) -> (r: Option<(i64, u32)>)
    ensures
        r == rfc3339_instant(s@),
{
    match chrono::DateTime::parse_from_rfc3339(s) {
        Ok(dt) => {
            let utc = dt.with_timezone(&chrono::Utc);
            Some((utc.timestamp(), utc.timestamp_subsec_nanos()))
        },
        Err(_) => None,
    }
}

} // verus!
