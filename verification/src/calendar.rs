//! Calendar authorization states, the decisions around requesting access,
//! and the planning of event queries.
//!
//! The native event-store calls themselves (reading the authorization
//! state, showing the permission dialog, enumerating calendars and events)
//! happen outside this crate; every decision between those calls stands
//! here with an exact contract.

use vstd::prelude::*;
use crate::datetime::{parse_rfc3339_seconds, rfc3339_seconds_of};
use crate::encoding::{hex_color_of, rgb_to_hex_color};
use crate::text::{i64_to_decimal, dec_int_of, str_eq};

verus! {

/// Authorization state of the calendar data source, mirroring the native
/// enumerated permission state.
#[derive(Debug, Clone, Copy, PartialEq, Eq, Structural)]
pub enum CalendarAuthorizationStatus {
    NotDetermined,
    Restricted,
    Denied,
    Authorized,
}

/// One calendar, as handed over the RPC boundary.
#[derive(Debug, Clone)]
pub struct CalendarInfo {
    pub identifier: String,
    pub title: String,
    /// `#RRGGBB`
    pub color: String,
}

/// One event participant.
#[derive(Debug, Clone)]
pub struct ParticipantInfo {
    pub name: Option<String>,
}

/// One calendar event, dates as RFC 3339 strings.
#[derive(Debug, Clone)]
pub struct EventInfo {
    pub identifier: String,
    pub title: String,
    pub notes: Option<String>,
    pub url: Option<String>,
    pub participants: Vec<ParticipantInfo>,
    pub start_date: String,
    pub end_date: String,
    pub calendar_id: String,
    pub location: Option<String>,
    pub is_all_day: bool,
}

/// The raw integer the native framework reports for each authorization state.
pub open spec fn status_raw_value(s: CalendarAuthorizationStatus) -> int {
    match s {
        CalendarAuthorizationStatus::NotDetermined => 0,
        CalendarAuthorizationStatus::Restricted => 1,
        CalendarAuthorizationStatus::Denied => 2,
        CalendarAuthorizationStatus::Authorized => 3,
    }
}

/// Maps the raw status integer reported by the native framework to the
/// authorization state, rejecting values outside the known range.
pub fn authorization_status_from_raw(raw: i64) -> (r: Option<CalendarAuthorizationStatus>)
    ensures
        r matches Some(s) ==> status_raw_value(s) == raw as int,
        r is Some <==> 0 <= raw <= 3,
{
    match raw {
        0 => Some(CalendarAuthorizationStatus::NotDetermined),
        1 => Some(CalendarAuthorizationStatus::Restricted),
        2 => Some(CalendarAuthorizationStatus::Denied),
        3 => Some(CalendarAuthorizationStatus::Authorized),
        _ => None,
    }
}

/// Interprets the raw status integer, with the error text reported for an
/// unknown value.
pub fn interpret_authorization_status(raw: i64) -> (r: Result<
    CalendarAuthorizationStatus,
    String,
>)
    ensures
        r matches Ok(s) ==> status_raw_value(s) == raw as int,
        r is Ok <==> 0 <= raw <= 3,
        r matches Err(m) ==> m@ == "Unknown calendar authorization status: "@ + dec_int_of(
            raw as int,
        ),
{
    match authorization_status_from_raw(raw) {
        Some(s) => Ok(s),
        None => Err(
            String::from_str("Unknown calendar authorization status: ").concat(
                i64_to_decimal(raw).as_str(),
            ),
        ),
    }
}

/// Gate shared by the calendar listings: anything short of full access is
/// answered with the fixed refusal.
pub fn require_authorized(status: CalendarAuthorizationStatus) -> (r: Result<(), String>)
    ensures
        r is Ok <==> status is Authorized,
        r matches Err(m) ==> m@ == "Calendar access not authorized."@,
{
    match status {
        CalendarAuthorizationStatus::Authorized => Ok(()),
        _ => Err(String::from_str("Calendar access not authorized.")),
    }
}

/// What the access-request flow does before touching the native dialog:
/// any already-settled state is returned as it stands, and only a
/// not-yet-determined state leads to the native one-shot request.
pub fn pre_request_decision(current: CalendarAuthorizationStatus) -> (r: Option<
    CalendarAuthorizationStatus,
>)
    ensures
        r is None <==> current is NotDetermined,
        r matches Some(s) ==> s == current,
{
    match current {
        CalendarAuthorizationStatus::NotDetermined => None,
        other => Some(other),
    }
}

/// What the native completion handler sends through the one-shot channel:
/// the grant flag, forced to `false` when the framework reported an error.
pub fn completion_signal(granted: bool, has_error: bool) -> (r: bool)
    ensures
        r == (granted && !has_error),
{
    if has_error {
        false
    } else {
        granted
    }
}

/// How the wait for the one-shot completion channel ended.
pub enum AccessWait {
    /// The completion handler delivered its grant flag.
    Received(bool),
    /// The channel closed without a delivery.
    ChannelClosed,
    /// The task blocked on the channel could not be run at all.
    TaskFailed,
}

/// How the blocked caller interprets the wait: any delivered value counts
/// as a completed grant flow, and each failure is its fixed error.  Note
/// the asymmetry: the grant flag inside a delivery is not consulted — a
/// dialog flow that completes at all answers `Authorized`, a denial
/// included, and only the two failure paths differ.
pub fn request_outcome(wait: AccessWait) -> (r: Result<CalendarAuthorizationStatus, String>)
    ensures
        wait is Received ==> r == Ok::<CalendarAuthorizationStatus, String>(
            CalendarAuthorizationStatus::Authorized,
        ),
        wait is ChannelClosed ==> (r matches Err(m) && m@
            == "Calendar access completion handler channel closed unexpectedly."@),
        wait is TaskFailed ==> (r matches Err(m) && m@
            == "Failed to run blocking task for calendar access result."@),
{
    match wait {
        AccessWait::Received(_) => Ok(CalendarAuthorizationStatus::Authorized),
        AccessWait::ChannelClosed => Err(
            String::from_str("Calendar access completion handler channel closed unexpectedly."),
        ),
        AccessWait::TaskFailed => Err(
            String::from_str("Failed to run blocking task for calendar access result."),
        ),
    }
}

/// How the calendar listing reads the native calendar array: a missing
/// array is the fixed error, any other is handed on.
pub fn calendars_listing_outcome(listing: Option<Vec<CalendarInfo>>) -> (r: Result<
    Vec<CalendarInfo>,
    String,
>)
    ensures
        listing matches Some(v) ==> (r matches Ok(o) && o@ == v@),
        listing is None ==> (r matches Err(m) && m@ == "Empty list!!!!."@),
{
    match listing {
        Some(v) => Ok(v),
        None => Err(String::from_str("Empty list!!!!.")),
    }
}

/// A validated event query: the parsed date range and the calendars asked
/// for.
#[derive(Debug)]
pub struct EventsQueryPlan {
    pub start_seconds: i64,
    pub end_seconds: i64,
    pub calendar_ids: Vec<String>,
}

/// Checks authorization and both dates of an event query, producing either
/// the validated plan or exactly the error the caller reports.
pub fn plan_events_query(
    status: CalendarAuthorizationStatus,
    calendar_ids: Vec<String>,
    start_date_iso: &str,
    end_date_iso: &str,
) -> (r: Result<EventsQueryPlan, String>)
    ensures
        !(status is Authorized) ==> (r matches Err(m) && m@
            == "Calendar access not authorized."@),
        status is Authorized && rfc3339_seconds_of(start_date_iso@) is None ==> (r matches Err(
            m,
        ) && m@ == "Invalid start date format: "@ + start_date_iso@),
        status is Authorized && rfc3339_seconds_of(start_date_iso@) is Some && rfc3339_seconds_of(
            end_date_iso@,
        ) is None ==> (r matches Err(m) && m@ == "Invalid end date format: "@ + end_date_iso@),
        r matches Ok(plan) ==> status is Authorized && rfc3339_seconds_of(start_date_iso@)
            == Some(plan.start_seconds as int) && rfc3339_seconds_of(end_date_iso@)
            == Some(plan.end_seconds as int) && plan.calendar_ids@ == calendar_ids@,
        status is Authorized && rfc3339_seconds_of(start_date_iso@) is Some && rfc3339_seconds_of(
            end_date_iso@,
        ) is Some ==> r is Ok,
{
    if let Err(m) = require_authorized(status) {
        return Err(m);
    }
    let start_seconds = match parse_rfc3339_seconds(start_date_iso) {
        Some(t) => t,
        None => {
            return Err(String::from_str("Invalid start date format: ").concat(start_date_iso));
        },
    };
    let end_seconds = match parse_rfc3339_seconds(end_date_iso) {
        Some(t) => t,
        None => {
            return Err(String::from_str("Invalid end date format: ").concat(end_date_iso));
        },
    };
    Ok(EventsQueryPlan { start_seconds, end_seconds, calendar_ids })
}

/// A string equal to one of `wanted`.
pub open spec fn contains_text(wanted: Seq<String>, s: Seq<char>) -> bool {
    exists|k: int| 0 <= k < wanted.len() && wanted[k]@ == s
}

/// Whether `s` equals any member of `wanted`, by characters.
pub fn any_matches(wanted: &Vec<String>, s: &str) -> (r: bool)
    ensures
        r <==> contains_text(wanted@, s@),
{
    let mut k: usize = 0;
    while k < wanted.len()
        invariant
            k <= wanted@.len(),
            forall|j: int| 0 <= j < k ==> wanted@[j]@ != s@,
        decreases wanted@.len() - k,
    {
        if str_eq(wanted[k].as_str(), s) {
            return true;
        }
        k += 1;
    }
    false
}

/// Selects, in order, the positions of the identifiers that appear in
/// `wanted` — the calendar-lookup step of the event query, applied to the
/// identifier of each native calendar in turn.
pub fn matching_positions(identifiers: &Vec<String>, wanted: &Vec<String>) -> (r: Vec<usize>)
    ensures
        forall|k: int|
            0 <= k < r@.len() ==> r@[k] < identifiers@.len() && contains_text(
                wanted@,
                identifiers@[r@[k] as int]@,
            ),
        forall|k1: int, k2: int| 0 <= k1 < k2 < r@.len() ==> r@[k1] < r@[k2],
        forall|i: int|
            0 <= i < identifiers@.len() && contains_text(wanted@, identifiers@[i]@) ==> r@.contains(
                i as usize,
            ),
{
    let mut r: Vec<usize> = Vec::new();
    let mut i: usize = 0;
    while i < identifiers.len()
        invariant
            i <= identifiers@.len(),
            forall|k: int|
                0 <= k < r@.len() ==> r@[k] < i && contains_text(
                    wanted@,
                    identifiers@[r@[k] as int]@,
                ),
            forall|k1: int, k2: int| 0 <= k1 < k2 < r@.len() ==> r@[k1] < r@[k2],
            forall|j: int|
                0 <= j < i && contains_text(wanted@, identifiers@[j]@) ==> r@.contains(j as usize),
        decreases identifiers@.len() - i,
    {
        let ghost r0 = r@;
        if any_matches(wanted, identifiers[i].as_str()) {
            r.push(i);
            proof {
                assert(r@ == r0.push(i as usize));
                assert forall|j: int|
                    0 <= j < i + 1 && contains_text(wanted@, identifiers@[j]@) implies r@.contains(
                    j as usize,
                ) by {
                    if j < i {
                        let k = choose|k: int| 0 <= k < r0.len() && r0[k] == j as usize;
                        assert(r@[k] == j as usize);
                    } else {
                        assert(r@[r0.len() as int] == i as usize);
                    }
                }
            }
        }
        i += 1;
    }
    r
}

/// How one native calendar color reading becomes the `#RRGGBB` string: a
/// missing color is rendered black, a color that cannot be expressed in
/// device RGB is rendered gray, and components are rendered exactly.
pub enum ColorReading {
    Missing,
    Unconvertible,
    Rgb(u8, u8, u8),
}

/// The hex string for one color reading.
pub fn color_reading_to_hex(reading: &ColorReading) -> (r: String)
    ensures
        reading is Missing ==> r@ == "#000000"@,
        reading is Unconvertible ==> r@ == "#808080"@,
        reading matches ColorReading::Rgb(red, green, blue) ==> r@ == hex_color_of(
            *red as int,
            *green as int,
            *blue as int,
        ),
{
    match reading {
        ColorReading::Missing => String::from_str("#000000"),
        ColorReading::Unconvertible => String::from_str("#808080"),
        ColorReading::Rgb(red, green, blue) => rgb_to_hex_color(*red, *green, *blue),
    }
}

} // verus!
