//! The device's sensor rows and the instants they carry.

use crate::models::{get_location, location_of, ModelError};
use vstd::prelude::*;

verus! {

/// A sensor row as the device writes it.
#[derive(Default, Debug, Clone, PartialEq)]
pub struct HeartbeatEntry {
    pub door: String,
    pub location: String,
    pub error: Option<i64>,
    pub heartbeat: Option<i64>,
}

/// The latest error and heartbeat instants of a sensor.
#[derive(Default, Debug, Clone, PartialEq)]
pub struct Heartbeat {
    pub error: Option<i64>,
    pub heartbeat: Option<i64>,
}

impl HeartbeatEntry {
    /// The instants this row carries.
    pub fn to_heartbeat(self) -> (h: Heartbeat)
        ensures
            h.error == self.error,
            h.heartbeat == self.heartbeat,
    {
        Heartbeat { error: self.error, heartbeat: self.heartbeat }
    }
}

impl Heartbeat {
    /// The row that stores these instants for the door `sensor_name`; always `Ok`.
    pub fn to_entry(self, sensor_name: String) -> (r: Result<HeartbeatEntry, ModelError>)
        ensures
            r matches Ok(entry) && {
                &&& entry.door@ == sensor_name@
                &&& entry.location@ == location_of(sensor_name@)
                &&& entry.error == self.error
                &&& entry.heartbeat == self.heartbeat
            },
    {
        let door = sensor_name.clone();
        let location = match get_location(sensor_name) {
            Ok(location) => location,
            Err(e) => return Err(e),
        };
        Ok(HeartbeatEntry { door, location, error: self.error, heartbeat: self.heartbeat })
    }
}

/// Storing a sensor's instants and reading the row back gives the same instants.
pub proof fn heartbeat_entry_round_trip(beat: Heartbeat, entry: HeartbeatEntry)
    requires
        entry.error == beat.error,
        entry.heartbeat == beat.heartbeat,
    ensures
        (Heartbeat { error: entry.error, heartbeat: entry.heartbeat }) == beat,
{
}

} // verus!
