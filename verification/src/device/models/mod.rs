//! The camera's events and the rows the device writes for them.

pub mod database;
pub mod heartbeat;

use crate::clock::{parse_event_time, rfc3339_event_time, EventTime};
use crate::models::request::{is_night_hour, is_nightowl};
use crate::models::{location_of, rule_direction};
use crate::text::{same_text, text_before};
use vstd::prelude::*;

verus! {

/// A tripwire event as the camera sends it.
#[derive(Default, Debug, Clone, PartialEq)]
pub struct CounterRequest {
    pub channel_id: String,
    pub channel_name: String,
    pub event_name: String,
    pub event_origin: String,
    pub event_time: String,
    pub event_type: String,
    pub object_id: i64,
    pub rule_id: String,
    pub rule_name: String,
}

/// A counter row as the device writes it.
#[derive(Default, Debug, Clone, PartialEq)]
pub struct CounterEntry {
    pub time: i64,
    pub door: String,
    pub location: String,
    pub direction_in: i16,
    pub direction_out: i16,
    pub nightowl: bool,
    pub enter: bool,
}

/// A sensor row as the device writes it.
#[derive(Default, Debug, Clone, PartialEq)]
pub struct SensorEntry {
    pub door: String,
    pub location: String,
    pub error: Option<i64>,
    pub heartbeat: Option<i64>,
}

/// The location part of a channel name: the text before the first `;`.
pub fn get_location(channel_name: &str) -> (r: String)
    ensures
        r@ == location_of(channel_name@),
{
    text_before(channel_name, ';')
}

/// Whether a crossing rule counts a person entering; only `Enter` and `Exit` are rules.
pub fn get_direction(rule_name: &str) -> (r: bool)
    requires
        rule_direction(rule_name@) is Some,
    ensures
        rule_direction(rule_name@) == Some(r),
{
    same_text(rule_name, "Enter")
}

impl CounterRequest {
    /// `entry` is the counter row for this event when its time reads as `time`.
    pub open spec fn is_entry_at(self, entry: CounterEntry, time: EventTime) -> bool {
        let enter = rule_direction(self.rule_name@)->Some_0;
        &&& entry.time == time.timestamp_millis
        &&& entry.door@ == self.channel_name@
        &&& entry.location@ == location_of(self.channel_name@)
        &&& entry.direction_in == (if enter { 1i16 } else { 0i16 })
        &&& entry.direction_out == (if enter { 0i16 } else { 1i16 })
        &&& entry.nightowl == is_night_hour(time.hour as int)
        &&& entry.enter == enter
    }

    /// The event's time reads as RFC 3339 and its rule is `Enter` or `Exit`.
    pub open spec fn is_countable(self) -> bool {
        &&& rfc3339_event_time(self.event_time@) is Some
        &&& rule_direction(self.rule_name@) is Some
    }

    /// The counter row for this event once its time has been read as `time`.
    pub fn entry_at(&self, time: EventTime) -> (entry: CounterEntry)
        requires
            rule_direction(self.rule_name@) is Some,
        ensures
            self.is_entry_at(entry, time),
            entry.nightowl == (time.hour >= 22 || time.hour <= 6),
            entry.enter == (self.rule_name@ == "Enter"@),
            entry.time == time.timestamp_millis,
    {
        proof {
            reveal_strlit("Enter");
            reveal_strlit("Exit");
        }
        let enter = get_direction(self.rule_name.as_str());
        CounterEntry {
            time: time.timestamp_millis,
            door: self.channel_name.clone(),
            location: get_location(self.channel_name.as_str()),
            direction_in: if enter { 1 } else { 0 },
            direction_out: if enter { 0 } else { 1 },
            nightowl: is_nightowl(&time),
            enter,
        }
    }

    /// The counter row for this event; the event must be countable.
    pub fn to_entry(&self) -> (entry: CounterEntry)
        requires
            self.is_countable(),
        ensures
            self.is_entry_at(entry, rfc3339_event_time(self.event_time@)->Some_0),
            entry.nightowl == ({
                let hour = rfc3339_event_time(self.event_time@)->Some_0.hour;
                hour >= 22 || hour <= 6
            }),
            entry.enter == (self.rule_name@ == "Enter"@),
    {
        match parse_event_time(self.event_time.as_str()) {
            Ok(time) => self.entry_at(time),
            Err(_) => vstd::pervasive::unreached(),
        }
    }

    /// The counter row for this event, or `None` where it is not countable.
    pub fn try_to_entry(&self) -> (r: Option<CounterEntry>)
        ensures
            r is Some <==> self.is_countable(),
            r matches Some(entry) ==> self.is_entry_at(entry, rfc3339_event_time(self.event_time@)->Some_0),
            r matches Some(entry) ==> entry.nightowl == ({
                let hour = rfc3339_event_time(self.event_time@)->Some_0.hour;
                hour >= 22 || hour <= 6
            }),
            r matches Some(entry) ==> entry.enter == (self.rule_name@ == "Enter"@),
    {
        match parse_event_time(self.event_time.as_str()) {
            Ok(_) => {},
            Err(_) => return None,
        }
        if !same_text(self.rule_name.as_str(), "Enter") && !same_text(self.rule_name.as_str(), "Exit") {
            return None;
        }
        Some(self.to_entry())
    }

    /// `entry` is the sensor row reporting an error at this event's time `time`.
    pub open spec fn is_error_entry_at(self, entry: SensorEntry, time: EventTime) -> bool {
        &&& entry.door@ == self.channel_name@
        &&& entry.location@ == location_of(self.channel_name@)
        &&& entry.error == Some(time.timestamp_millis)
        &&& entry.heartbeat is None
    }

    /// The sensor row reporting an error at this event's time; the time must read as RFC 3339.
    pub fn to_error_sensor_entry(&self) -> (entry: SensorEntry)
        requires
            rfc3339_event_time(self.event_time@) is Some,
        ensures
            self.is_error_entry_at(entry, rfc3339_event_time(self.event_time@)->Some_0),
    {
        match parse_event_time(self.event_time.as_str()) {
            Ok(time) => SensorEntry {
                door: self.channel_name.clone(),
                location: get_location(self.channel_name.as_str()),
                error: Some(time.timestamp_millis),
                heartbeat: None,
            },
            Err(_) => vstd::pervasive::unreached(),
        }
    }

    /// The error row for this event, or `None` where its time does not read as RFC 3339.
    pub fn try_to_error_sensor_entry(&self) -> (r: Option<SensorEntry>)
        ensures
            r is Some <==> rfc3339_event_time(self.event_time@) is Some,
            r matches Some(entry) ==> self.is_error_entry_at(entry, rfc3339_event_time(self.event_time@)->Some_0),
    {
        match parse_event_time(self.event_time.as_str()) {
            Ok(_) => Some(self.to_error_sensor_entry()),
            Err(_) => None,
        }
    }
}

/// A counter row flags a night owl exactly when the event's hour, in the
/// event's own offset, is 22 or later or 6 or earlier, whether the person
/// entered or left.
pub proof fn counter_entry_nightowl_by_hour(request: CounterRequest, entry: CounterEntry, time: EventTime)
    requires
        request.is_entry_at(entry, time),
    ensures
        entry.nightowl == (time.hour >= 22 || time.hour <= 6),
{
}

/// Two events at the same time get the same night-owl flag, one entering
/// and one leaving alike: the flag does not depend on the direction.
pub proof fn counter_entry_nightowl_ignores_direction(
    entering: CounterRequest,
    leaving: CounterRequest,
    entry_in: CounterEntry,
    entry_out: CounterEntry,
    time: EventTime,
)
    requires
        entering.is_entry_at(entry_in, time),
        leaving.is_entry_at(entry_out, time),
    ensures
        entry_in.nightowl == entry_out.nightowl,
{
}

/// Every counter row counts one person, in one direction, which `enter` names.
pub proof fn counter_entry_direction_is_one_hot(request: CounterRequest, entry: CounterEntry, time: EventTime)
    requires
        request.is_entry_at(entry, time),
    ensures
        entry.direction_in + entry.direction_out == 1,
        entry.enter <==> entry.direction_in == 1,
{
}

} // verus!
