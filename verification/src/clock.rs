//! Event times and the current time, as plain values read from chrono.

use vstd::prelude::*;

verus! {

/// What the models read of an event timestamp: its instant in milliseconds
/// since the Unix epoch and its hour of day in the timestamp's own offset.
#[derive(Clone, Copy, Debug, PartialEq, Eq, Structural)]
pub struct EventTime {
    pub timestamp_millis: i64,
    pub hour: u32,
}

/// chrono's `ParseError`, carried through as an opaque value.
#[verifier::external_type_specification]
#[verifier::external_body]
pub struct ExParseError(chrono::ParseError);

/// The event time that chrono reads from an RFC 3339 text, or `None` where it refuses the text.
pub uninterp spec fn rfc3339_event_time(text: Seq<char>) -> Option<EventTime>;

/// Parses `text` with `chrono::DateTime::parse_from_rfc3339` and keeps the
/// instant (`timestamp_millis`) and the local hour (`Timelike::hour`).
/// Claimed of chrono: the outcome is a function of the text alone, named
/// `rfc3339_event_time`, and the hour is below 24 (chrono documents `hour`
/// as ranging over 0 to 23). Which texts parse, and to what, is not stated.
#[verifier::external_body]
pub(crate) fn parse_event_time(text: &str) -> (r: Result<EventTime, chrono::ParseError>)
    ensures
        match r {
            Ok(t) => rfc3339_event_time(text@) == Some(t),
            Err(_) => rfc3339_event_time(text@) is None,
        },
        r is Ok ==> r->Ok_0.hour < 24,
{
    match chrono::DateTime::parse_from_rfc3339(text) {
        Ok(dt) => Ok(EventTime { timestamp_millis: dt.timestamp_millis(), hour: chrono::Timelike::hour(&dt) }),
        Err(e) => Err(e),
    }
}

/// The current time, `chrono::Utc::now().timestamp_millis()`. It depends on
/// the clock, so nothing is claimed of its value; chrono panics where the
/// system clock stands before the Unix epoch.
#[verifier::external_body]
pub(crate) fn now_millis() -> i64 {
    chrono::Utc::now().timestamp_millis()
}

} // verus!
