//! Conversions between RFC 3339 text and UNIX timestamps.
//!
//! The native calendar framework speaks in absolute times; the RPC boundary
//! speaks in RFC 3339 strings.  The two conversions are delegated to the
//! `chrono` crate behind named results, since spelling out the calendar
//! arithmetic here would restate that library rather than rely on it.

use vstd::prelude::*;

verus! {

/// The UNIX timestamp (whole seconds, UTC) denoted by an RFC 3339 string,
/// or `None` where the string is not valid RFC 3339.
pub uninterp spec fn rfc3339_seconds_of(s: Seq<char>) -> Option<int>;

/// The RFC 3339 rendering (UTC offset) of the given UNIX timestamp, or
/// `None` where the timestamp lies outside the representable date range or
/// the nanosecond count is invalid (two thousand million or more, or a
/// thousand million or more off a leap-second boundary).
pub uninterp spec fn rfc3339_text_of(secs: int, nanos: int) -> Option<Seq<char>>;

/// Relies on `chrono::DateTime::parse_from_rfc3339` and
/// `chrono::DateTime::timestamp`: the parsed instant as whole seconds since
/// the UNIX epoch, a function of the input text alone.
#[verifier::external_body]
pub(crate) fn parse_rfc3339_seconds(s: &str) -> (r: Option<i64>)
    ensures
        r matches Some(t) ==> rfc3339_seconds_of(s@) == Some(t as int),
        r is None ==> rfc3339_seconds_of(s@) is None,
{
    chrono::DateTime::parse_from_rfc3339(s).ok().map(|dt| dt.timestamp())
}

/// Timestamps whose rendering is owed and parses back: whole seconds
/// within the years 0000 to 9999 and an ordinary sub-second nanosecond
/// count.
pub open spec fn rfc3339_renderable(secs: int, nanos: int) -> bool {
    -62_167_219_200 <= secs <= 253_402_300_799 && 0 <= nanos < 1_000_000_000
}

/// Relies on `chrono::DateTime::<Utc>::from_timestamp` (which returns
/// `None` for an out-of-range date or an invalid nanosecond argument) and
/// `chrono::DateTime::to_rfc3339`: the rendering is a function of the
/// timestamp alone.  A renderable timestamp always has one; and within the
/// years 0000 to 9999 — which chrono renders with the four digits the
/// parser demands — the rendering parses back to the same whole seconds.
#[verifier::external_body]
pub(crate) fn format_rfc3339_utc(secs: i64, nanos: u32) -> (r: Option<String>)
    ensures
        r matches Some(t) ==> rfc3339_text_of(secs as int, nanos as int) == Some(t@),
        r is None ==> rfc3339_text_of(secs as int, nanos as int) is None,
        rfc3339_renderable(secs as int, nanos as int) ==> r is Some,
        -62_167_219_200 <= secs <= 253_402_300_799 ==> (r matches Some(t) ==> rfc3339_seconds_of(
            t@,
        ) == Some(secs as int)),
{
    chrono::DateTime::<chrono::Utc>::from_timestamp(secs, nanos).map(|dt| dt.to_rfc3339())
}

/// Renders a timestamp as RFC 3339 text, falling back to the empty string
/// where no rendering exists, as the event listing does.  A renderable
/// timestamp is never empty and parses back to the same whole seconds.
pub fn timestamp_to_iso_string(secs: i64, nanos: u32) -> (r: String)
    ensures
        rfc3339_text_of(secs as int, nanos as int) matches Some(t) ==> r@ == t,
        rfc3339_text_of(secs as int, nanos as int) is None ==> r@ == Seq::<char>::empty(),
        rfc3339_renderable(secs as int, nanos as int) ==> rfc3339_text_of(
            secs as int,
            nanos as int,
        ) is Some && rfc3339_seconds_of(r@) == Some(secs as int),
{
    match format_rfc3339_utc(secs, nanos) {
        Some(s) => s,
        None => String::new(),
    }
}

} // verus!
