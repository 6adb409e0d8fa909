//! The events a camera posts when someone crosses a tripwire.

use crate::clock::{parse_event_time, rfc3339_event_time, EventTime};
use crate::models::count::Count;
use crate::models::heartbeat::Heartbeat;
use crate::models::{get_direction, rule_direction, ModelError};
use vstd::prelude::*;

verus! {

/// A tripwire event as the camera sends it.
#[derive(Default, Debug, Clone, PartialEq)]
pub struct Request {
    pub channel_id: String,
    pub channel_name: String,
    pub event_name: String,
    pub event_origin: String,
    pub event_time: String,
    pub event_type: String,
    pub object_id: i64,
    pub rule_id: String,
    pub rule_name: String,
}

/// Night hours run from 22:00 to the end of 6 o'clock.
pub open spec fn is_night_hour(hour: int) -> bool {
    hour >= 22 || hour <= 6
}

/// Whether an event happened at night, in the event's own offset.
pub fn is_nightowl(event_time: &EventTime) -> (r: bool)
    ensures
        r == is_night_hour(event_time.hour as int),
        r == (event_time.hour >= 22 || event_time.hour <= 6),
{
    event_time.hour >= 22 || event_time.hour <= 6
}

/// An hour is a night hour exactly when it is 22 or later, or 6 or earlier
/// (so 23:00 and 00:00 through 06:59 are night, 07:00 through 21:59 are day).
pub proof fn night_hours(hour: int)
    ensures
        is_night_hour(hour) <==> (hour >= 22 || hour <= 6),
        0 <= hour <= 23 ==> (is_night_hour(hour) <==> !(7 <= hour <= 21)),
{
}

impl Request {
    /// The crossing this event reports, given the event's parsed time.
    pub open spec fn spec_count_at(self, time: EventTime) -> Result<Count, ModelError> {
        match rule_direction(self.rule_name@) {
            Some(enter) => Ok(
                Count {
                    timestamp: time.timestamp_millis,
                    entering: enter,
                    nightowl: is_night_hour(time.hour as int),
                },
            ),
            None => Err(ModelError::InvalidRuleName),
        }
    }

    /// The crossing this event reports once its time has been read as `time`.
    pub fn count_from_time(&self, time: EventTime) -> (r: Result<Count, ModelError>)
        ensures
            r == self.spec_count_at(time),
            r is Ok <==> (self.rule_name@ == "Enter"@ || self.rule_name@ == "Exit"@),
            r matches Ok(c) ==> {
                &&& c.timestamp == time.timestamp_millis
                &&& c.entering == (self.rule_name@ == "Enter"@)
                &&& c.nightowl == (time.hour >= 22 || time.hour <= 6)
            },
    {
        proof {
            reveal_strlit("Enter");
            reveal_strlit("Exit");
        }
        let enter = match get_direction(self.rule_name.as_str()) {
            Ok(enter) => enter,
            Err(e) => return Err(e),
        };
        Ok(Count { timestamp: time.timestamp_millis, entering: enter, nightowl: is_nightowl(&time) })
    }

    /// The crossing this event reports: an error where the time is not
    /// RFC 3339 (checked first) or the rule is neither `Enter` nor `Exit`.
    pub fn to_count(&self) -> (r: Result<Count, ModelError>)
        ensures
            match rfc3339_event_time(self.event_time@) {
                Some(time) => r == self.spec_count_at(time),
                None => r matches Err(ModelError::InvalidEventTime(_)),
            },
            r matches Ok(c) ==> {
                let time = rfc3339_event_time(self.event_time@)->Some_0;
                &&& rfc3339_event_time(self.event_time@) is Some
                &&& c.timestamp == time.timestamp_millis
                &&& c.entering == (self.rule_name@ == "Enter"@)
                &&& c.nightowl == (time.hour >= 22 || time.hour <= 6)
            },
    {
        let time = match parse_event_time(self.event_time.as_str()) {
            Ok(time) => time,
            Err(e) => return Err(ModelError::InvalidEventTime(e)),
        };
        self.count_from_time(time)
    }

    /// The error report this event stands for: an error at the event's time.
    pub fn to_error_heartbeat(&self) -> (r: Result<Heartbeat, ModelError>)
        ensures
            match rfc3339_event_time(self.event_time@) {
                Some(time) => r == Ok::<Heartbeat, ModelError>(
                    Heartbeat { error: Some(time.timestamp_millis), heartbeat: None },
                ),
                None => r matches Err(ModelError::InvalidEventTime(_)),
            },
    {
        let time = match parse_event_time(self.event_time.as_str()) {
            Ok(time) => time,
            Err(e) => return Err(ModelError::InvalidEventTime(e)),
        };
        Ok(Heartbeat::from_error_time(time))
    }
}

} // verus!
