//! Liveness reports of the sensors: regular heartbeats and reported errors.

use crate::clock::{now_millis, EventTime};
use crate::models::count::lemma_span_fits;
use crate::models::{get_location, location_of, ModelError};
use vstd::prelude::*;

verus! {

/// A sensor row as the database stores it.
#[derive(Default, Debug, Clone, PartialEq)]
pub struct HeartbeatEntry {
    pub door: String,
    pub location: String,
    pub error: Option<i64>,
    pub heartbeat: Option<i64>,
}

/// The latest error and heartbeat instants of a sensor.
#[derive(Default, Debug, Clone, PartialEq)]
pub struct Heartbeat {
    pub error: Option<i64>,
    pub heartbeat: Option<i64>,
}

/// Milliseconds in an hour.
pub const HOUR_MILLIS: i64 = 3600000;

impl HeartbeatEntry {
    /// The instants a stored sensor row carries.
    pub open spec fn spec_to_heartbeat(self) -> Heartbeat {
        Heartbeat { error: self.error, heartbeat: self.heartbeat }
    }

    /// The instants this row carries.
    pub fn to_heartbeat(self) -> (h: Heartbeat)
        ensures
            h == self.spec_to_heartbeat(),
    {
        Heartbeat { error: self.error, heartbeat: self.heartbeat }
    }
}

impl Heartbeat {
    /// `entry` is the row that stores these instants for the door `sensor_name`.
    pub open spec fn is_stored_by(self, entry: HeartbeatEntry, sensor_name: Seq<char>) -> bool {
        &&& entry.door@ == sensor_name
        &&& entry.location@ == location_of(sensor_name)
        &&& entry.error == self.error
        &&& entry.heartbeat == self.heartbeat
    }

    /// The row that stores these instants for the door `sensor_name`; always `Ok`.
    pub fn to_entry(self, sensor_name: String) -> (r: Result<HeartbeatEntry, ModelError>)
        ensures
            r matches Ok(entry) && self.is_stored_by(entry, sensor_name@),
    {
        let door = sensor_name.clone();
        let location = match get_location(sensor_name) {
            Ok(location) => location,
            Err(e) => return Err(e),
        };
        Ok(HeartbeatEntry { door, location, error: self.error, heartbeat: self.heartbeat })
    }

    /// The heartbeat a sensor sends at the instant `timestamp`.
    pub fn beat_at(timestamp: i64) -> (h: Heartbeat)
        ensures
            h == (Heartbeat { error: None, heartbeat: Some(timestamp) }),
    {
        Heartbeat { error: None, heartbeat: Some(timestamp) }
    }

    /// The report of an error that happened at `time`.
    pub fn from_error_time(time: EventTime) -> (h: Heartbeat)
        ensures
            h == (Heartbeat { error: Some(time.timestamp_millis), heartbeat: None }),
    {
        Heartbeat { error: Some(time.timestamp_millis), heartbeat: None }
    }

    /// There is a heartbeat, and it came less than `hours` hours before `now`.
    pub open spec fn is_newer_than_hours_at(self, hours: int, now: int) -> bool {
        match self.heartbeat {
            Some(beat) => beat > now - hours * HOUR_MILLIS,
            None => false,
        }
    }

    /// Whether there is a heartbeat less than `hours` hours before the instant `now`.
    pub fn newer_than_hours_at(&self, hours: i64, now: i64) -> (r: bool)
        ensures
            r == self.is_newer_than_hours_at(hours as int, now as int),
    {
        match self.heartbeat {
            Some(beat) => {
                proof {
                    lemma_span_fits(hours as int, HOUR_MILLIS as int);
                }
                (beat as i128) > (now as i128) - (hours as i128) * (HOUR_MILLIS as i128)
            },
            None => false,
        }
    }

    /// Whether there is a heartbeat less than `hours` hours old, by the clock.
    pub fn newer_than_hours(&self, hours: i64) -> (r: bool)
        ensures
            exists|now: i64| r == self.is_newer_than_hours_at(hours as int, now as int),
            self.heartbeat is None ==> !r,
    {
        let now = now_millis();
        let r = self.newer_than_hours_at(hours, now);
        assert(r == self.is_newer_than_hours_at(hours as int, now as int));
        r
    }
}

/// A heartbeat recent within fewer hours is recent within more hours.
pub proof fn newer_than_hours_is_monotone(beat: Heartbeat, fewer: int, more: int, now: int)
    requires
        fewer <= more,
        beat.is_newer_than_hours_at(fewer, now),
    ensures
        beat.is_newer_than_hours_at(more, now),
{
    assert(fewer * HOUR_MILLIS <= more * HOUR_MILLIS) by (nonlinear_arith)
        requires fewer <= more;
}

/// Storing a sensor's instants and reading the row back gives the same instants.
pub proof fn heartbeat_entry_round_trip(beat: Heartbeat, entry: HeartbeatEntry, sensor_name: Seq<char>)
    requires
        beat.is_stored_by(entry, sensor_name),
    ensures
        entry.spec_to_heartbeat() == beat,
{
}

} // verus!
