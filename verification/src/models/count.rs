//! Counted crossings of a door, as the sensors report them and as the database stores them.

use crate::clock::{now_millis, EventTime};
use crate::models::{get_location, location_of, ModelError};
use vstd::prelude::*;

verus! {

/// A counter row as the database stores it.
#[derive(Default, Debug, Clone, PartialEq)]
pub struct CountEntry {
    pub time: i64,
    pub door: String,
    pub location: String,
    pub direction_in: i16,
    pub direction_out: i16,
    pub nightowl: bool,
}

/// One person crossing a door.
#[derive(Default, Debug, Clone, PartialEq)]
pub struct Count {
    pub timestamp: i64,
    pub entering: bool,
    pub nightowl: bool,
}

/// Milliseconds in a day.
pub const DAY_MILLIS: i64 = 86400000;

impl CountEntry {
    /// The crossing a stored row records.
    pub open spec fn spec_to_count(self) -> Count {
        Count { timestamp: self.time, entering: self.direction_in == 1, nightowl: self.nightowl }
    }

    /// The crossing this row records: inwards exactly when `direction_in` is 1.
    pub fn to_count(&self) -> (c: Count)
        ensures
            c == self.spec_to_count(),
    {
        Count { timestamp: self.time, entering: self.direction_in == 1, nightowl: self.nightowl }
    }
}

impl Count {
    /// `entry` is the row that records this crossing at the door `sensor_name`.
    pub open spec fn is_recorded_by(self, entry: CountEntry, sensor_name: Seq<char>) -> bool {
        &&& entry.time == self.timestamp
        &&& entry.door@ == sensor_name
        &&& entry.location@ == location_of(sensor_name)
        &&& entry.direction_in == (if self.entering { 1i16 } else { 0i16 })
        &&& entry.direction_out == (if self.entering { 0i16 } else { 1i16 })
        &&& entry.nightowl == self.nightowl
    }

    /// The row that records this crossing at the door `sensor_name`; always `Ok`.
    pub fn to_entry(&self, sensor_name: String) -> (r: Result<CountEntry, ModelError>)
        ensures
            r matches Ok(entry) && self.is_recorded_by(entry, sensor_name@),
    {
        let door = sensor_name.clone();
        let location = match get_location(sensor_name) {
            Ok(location) => location,
            Err(e) => return Err(e),
        };
        let entry = CountEntry {
            time: self.timestamp,
            door,
            location,
            direction_in: if self.entering { 1 } else { 0 },
            direction_out: if self.entering { 0 } else { 1 },
            nightowl: self.nightowl,
        };
        Ok(entry)
    }

    /// The crossing happened less than `days` days before `now` (all in milliseconds).
    pub open spec fn is_newer_than_days_at(self, days: int, now: int) -> bool {
        self.timestamp > now - days * DAY_MILLIS
    }

    /// Whether the crossing happened less than `days` days before the instant `now`.
    pub fn newer_than_days_at(&self, days: i64, now: i64) -> (r: bool)
        ensures
            r == self.is_newer_than_days_at(days as int, now as int),
    {
        proof {
            lemma_span_fits(days as int, DAY_MILLIS as int);
        }
        (self.timestamp as i128) > (now as i128) - (days as i128) * (DAY_MILLIS as i128)
    }

    /// Whether the crossing happened less than `days` days ago, by the clock.
    pub fn newer_than_days(&self, days: i64) -> (r: bool)
        ensures
            exists|now: i64| r == self.is_newer_than_days_at(days as int, now as int),
    {
        let now = now_millis();
        let r = self.newer_than_days_at(days, now);
        assert(r == self.is_newer_than_days_at(days as int, now as int));
        r
    }
}

/// A number of days or hours, scaled to milliseconds, stays far inside `i128`.
pub proof fn lemma_span_fits(n: int, unit: int)
    requires
        i64::MIN <= n <= i64::MAX,
        0 < unit <= DAY_MILLIS,
    ensures
        -0x1_0000_0000_0000_0000_0000_0000 < n * unit < 0x1_0000_0000_0000_0000_0000_0000,
{
    assert(-0x8000_0000_0000_0000 * unit <= n * unit <= 0x8000_0000_0000_0000 * unit) by (nonlinear_arith)
        requires
            i64::MIN <= n <= i64::MAX,
            0 < unit;
}

/// A crossing recent within fewer days is recent within more days.
pub proof fn newer_than_days_is_monotone(count: Count, fewer: int, more: int, now: int)
    requires
        fewer <= more,
        count.is_newer_than_days_at(fewer, now),
    ensures
        count.is_newer_than_days_at(more, now),
{
    assert(fewer * DAY_MILLIS <= more * DAY_MILLIS) by (nonlinear_arith)
        requires fewer <= more;
}

/// Recording a crossing and reading the row back gives the same crossing.
pub proof fn count_entry_round_trip(count: Count, entry: CountEntry, sensor_name: Seq<char>)
    requires
        count.is_recorded_by(entry, sensor_name),
    ensures
        entry.spec_to_count() == count,
{
}

} // verus!
