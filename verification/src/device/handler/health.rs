//! The device's liveness verdict over the sensors' heartbeats and latest counts.

use crate::clock::now_millis;
use crate::device::models::heartbeat::HeartbeatEntry;
use crate::handler::health::{
    find_latest_count, first_count_from_is_first_match, latest_count_index, sensor_is_healthy, COUNT_MAX_AGE_DAYS,
};
use crate::models::count::{lemma_span_fits, CountEntry, DAY_MILLIS};
use crate::models::heartbeat::HeartbeatEntry as StoredHeartbeatEntry;
use vstd::prelude::*;

verus! {

/// A sensor is live: a heartbeat within a day, a latest count within four
/// days, and no error newer than that count.
pub open spec fn sensor_is_live(counts: Seq<CountEntry>, sensor: HeartbeatEntry, now: int) -> bool {
    &&& sensor.heartbeat matches Some(beat) && beat > now - DAY_MILLIS
    &&& match latest_count_index(counts, sensor.door@) {
        Some(i) => {
            &&& counts[i].spec_to_count().is_newer_than_days_at(COUNT_MAX_AGE_DAYS as int, now)
            &&& !(sensor.error matches Some(error) && error > counts[i].time)
        },
        None => false,
    }
}

/// Law: a sensor is live exactly when it has a heartbeat later than a day
/// before `now`, the first count of its door in the list is later than four
/// days before `now`, and no error it reported is later than that count.
pub proof fn live_sensor_conditions(counts: Seq<CountEntry>, sensor: HeartbeatEntry, now: int)
    ensures
        sensor_is_live(counts, sensor, now) <==> {
            &&& sensor.heartbeat matches Some(beat) && beat > now - 86400000
            &&& exists|k: int|
                #![trigger counts[k]]
                0 <= k < counts.len() && counts[k].door@ == sensor.door@ && (forall|j: int|
                    0 <= j < k ==> counts[j].door@ != sensor.door@) && counts[k].time > now - 345600000
                    && !(sensor.error matches Some(error) && error > counts[k].time)
        },
{
    first_count_from_is_first_match(counts, sensor.door@, 0);
    let rhs_count = exists|k: int|
        #![trigger counts[k]]
        0 <= k < counts.len() && counts[k].door@ == sensor.door@ && (forall|j: int|
            0 <= j < k ==> counts[j].door@ != sensor.door@) && counts[k].time > now - 345600000
            && !(sensor.error matches Some(error) && error > counts[k].time);
    if rhs_count {
        let k2 = choose|k2: int|
            #![trigger counts[k2]]
            0 <= k2 < counts.len() && counts[k2].door@ == sensor.door@ && (forall|j: int|
                0 <= j < k2 ==> counts[j].door@ != sensor.door@) && counts[k2].time > now - 345600000
                && !(sensor.error matches Some(error) && error > counts[k2].time);
        match latest_count_index(counts, sensor.door@) {
            Some(k) => {
                if k2 < k {
                    assert(counts[k2].door@ != sensor.door@);
                } else if k < k2 {
                    assert(counts[k].door@ != sensor.door@);
                }
            },
            None => {
                assert(counts[k2].door@ != sensor.door@);
            },
        }
    }
    if let Some(k) = latest_count_index(counts, sensor.door@) {
        if counts[k].time > now - 345600000 && !(sensor.error matches Some(error) && error > counts[k].time) {
            assert(counts[k].door@ == sensor.door@);
            assert(rhs_count);
        }
    }
}

/// Every sensor is live at the instant `now`.
pub open spec fn all_live(counts: Seq<CountEntry>, sensors: Seq<HeartbeatEntry>, now: int) -> bool {
    forall|i: int| 0 <= i < sensors.len() ==> #[trigger] sensor_is_live(counts, sensors[i], now)
}

/// Whether one sensor is live at the instant `now`.
pub fn sensor_is_live_at(counts: &Vec<CountEntry>, sensor: &HeartbeatEntry, now: i64) -> (r: bool)
    ensures
        r == sensor_is_live(counts@, *sensor, now as int),
        r == {
            &&& sensor.heartbeat matches Some(beat) && beat > now - 86400000
            &&& exists|k: int|
                #![trigger counts@[k]]
                0 <= k < counts@.len() && counts@[k].door@ == sensor.door@ && (forall|j: int|
                    0 <= j < k ==> counts@[j].door@ != sensor.door@) && counts@[k].time > now - 345600000
                    && !(sensor.error matches Some(error) && error > counts@[k].time)
        },
{
    proof {
        live_sensor_conditions(counts@, *sensor, now as int);
    }
    let fresh_beat = match sensor.heartbeat {
        Some(beat) => {
            proof {
                lemma_span_fits(1, DAY_MILLIS as int);
            }
            (beat as i128) > (now as i128) - (DAY_MILLIS as i128)
        },
        None => false,
    };
    if !fresh_beat {
        return false;
    }
    match find_latest_count(counts, &sensor.door) {
        Some(i) => {
            let latest = &counts[i];
            if !latest.to_count().newer_than_days_at(COUNT_MAX_AGE_DAYS, now) {
                return false;
            }
            if let Some(error) = sensor.error {
                if error > latest.time {
                    return false;
                }
            }
            true
        },
        None => false,
    }
}

/// Law: the device finds every sensor live exactly when each has a
/// heartbeat later than a day before `now`, the first count of its door in
/// the list is later than four days before `now`, and no error it reported
/// is later than that count.
pub proof fn all_live_conditions(counts: Seq<CountEntry>, sensors: Seq<HeartbeatEntry>, now: int)
    ensures
        all_live(counts, sensors, now) == forall|i: int|
            #![trigger sensors[i]]
            0 <= i < sensors.len() ==> {
                &&& sensors[i].heartbeat matches Some(beat) && beat > now - 86400000
                &&& exists|k: int|
                    #![trigger counts[k]]
                    0 <= k < counts.len() && counts[k].door@ == sensors[i].door@
                        && (forall|j: int| 0 <= j < k ==> counts[j].door@ != sensors[i].door@)
                        && counts[k].time > now - 345600000
                        && !(sensors[i].error matches Some(error) && error > counts[k].time)
            },
{
    if all_live(counts, sensors, now) {
        assert forall|i: int| #![trigger sensors[i]] 0 <= i < sensors.len() implies {
                &&& sensors[i].heartbeat matches Some(beat) && beat > now - 86400000
                &&& exists|k: int|
                    #![trigger counts[k]]
                    0 <= k < counts.len() && counts[k].door@ == sensors[i].door@
                        && (forall|j: int| 0 <= j < k ==> counts[j].door@ != sensors[i].door@)
                        && counts[k].time > now - 345600000
                        && !(sensors[i].error matches Some(error) && error > counts[k].time)
            } by {
            assert(sensor_is_live(counts, sensors[i], now));
            live_sensor_conditions(counts, sensors[i], now);
        }
    }
    if forall|i: int|
        #![trigger sensors[i]]
        0 <= i < sensors.len() ==> {
                &&& sensors[i].heartbeat matches Some(beat) && beat > now - 86400000
                &&& exists|k: int|
                    #![trigger counts[k]]
                    0 <= k < counts.len() && counts[k].door@ == sensors[i].door@
                        && (forall|j: int| 0 <= j < k ==> counts[j].door@ != sensors[i].door@)
                        && counts[k].time > now - 345600000
                        && !(sensors[i].error matches Some(error) && error > counts[k].time)
            } {
        assert forall|i: int| 0 <= i < sensors.len() implies #[trigger] sensor_is_live(counts, sensors[i], now) by {
            assert(sensors[i] == sensors[i]);
            live_sensor_conditions(counts, sensors[i], now);
        }
    }
}

/// Whether every sensor is live at the instant `now`.
pub fn check_sensor_and_latest_count_status_at(
    count_entries: Vec<CountEntry>,
    sensor_entries: Vec<HeartbeatEntry>,
    now: i64,
) -> (r: bool)
    ensures
        r == forall|i: int|
            0 <= i < sensor_entries@.len() ==> #[trigger] sensor_is_live(
                count_entries@,
                sensor_entries@[i],
                now as int,
            ),
        r == forall|i: int|
            #![trigger sensor_entries@[i]]
            0 <= i < sensor_entries@.len() ==> {
                &&& sensor_entries@[i].heartbeat matches Some(beat) && beat > now as int - 86400000
                &&& exists|k: int|
                    #![trigger count_entries@[k]]
                    0 <= k < count_entries@.len() && count_entries@[k].door@ == sensor_entries@[i].door@
                        && (forall|j: int| 0 <= j < k ==> count_entries@[j].door@ != sensor_entries@[i].door@)
                        && count_entries@[k].time > now as int - 345600000
                        && !(sensor_entries@[i].error matches Some(error) && error > count_entries@[k].time)
            },
{
    proof {
        all_live_conditions(count_entries@, sensor_entries@, now as int);
    }
    let n = sensor_entries.len();
    let mut i: usize = 0;
    while i < n
        invariant
            n == sensor_entries@.len(),
            i <= n,
            forall|j: int| 0 <= j < i ==> #[trigger] sensor_is_live(count_entries@, sensor_entries@[j], now as int),
        decreases n - i,
    {
        if !sensor_is_live_at(&count_entries, &sensor_entries[i], now) {
            return false;
        }
        i = i + 1;
    }
    true
}

/// Whether every sensor is live now, by the clock.
pub fn check_sensor_and_latest_count_status(count_entries: Vec<CountEntry>, sensor_entries: Vec<HeartbeatEntry>) -> (r: bool)
    ensures
        exists|now: i64| r == #[trigger] all_live(count_entries@, sensor_entries@, now as int),
{
    let now = now_millis();
    let ghost counts = count_entries@;
    let ghost sensors = sensor_entries@;
    let r = check_sensor_and_latest_count_status_at(count_entries, sensor_entries, now);
    assert(r == all_live(counts, sensors, now as int));
    r
}

/// The device's row and the dashboard's row describe the same sensor.
pub open spec fn same_sensor(device: HeartbeatEntry, stored: StoredHeartbeatEntry) -> bool {
    &&& device.door@ == stored.door@
    &&& device.error == stored.error
    &&& device.heartbeat == stored.heartbeat
}

/// A sensor the dashboard finds healthy is live by the device's check too:
/// a heartbeat within two hours is within a day.
pub proof fn healthy_sensor_is_live(
    counts: Seq<CountEntry>,
    device: HeartbeatEntry,
    stored: StoredHeartbeatEntry,
    now: int,
)
    requires
        same_sensor(device, stored),
        sensor_is_healthy(counts, stored, now),
    ensures
        sensor_is_live(counts, device, now),
{
}

/// Sensor lists the dashboard finds healthy, the device finds live.
pub proof fn healthy_sensors_are_live(
    counts: Seq<CountEntry>,
    devices: Seq<HeartbeatEntry>,
    stored: Seq<StoredHeartbeatEntry>,
    now: int,
)
    requires
        devices.len() == stored.len(),
        forall|i: int| 0 <= i < devices.len() ==> same_sensor(#[trigger] devices[i], stored[i]),
        forall|i: int| 0 <= i < stored.len() ==> #[trigger] sensor_is_healthy(counts, stored[i], now),
    ensures
        all_live(counts, devices, now),
{
    assert forall|i: int| 0 <= i < devices.len() implies #[trigger] sensor_is_live(counts, devices[i], now) by {
        assert(same_sensor(devices[i], stored[i]));
        assert(sensor_is_healthy(counts, stored[i], now));
        healthy_sensor_is_live(counts, devices[i], stored[i], now);
    }
}

/// Law: a sensor whose latest count (the first count of its door in the
/// list) is four days old or older is not live, whatever its heartbeat, so
/// the device's check answers `false` for any list of sensors holding it.
pub proof fn stale_latest_count_is_not_live(
    counts: Seq<CountEntry>,
    sensors: Seq<HeartbeatEntry>,
    now: int,
    i: int,
    k: int,
)
    requires
        0 <= i < sensors.len(),
        0 <= k < counts.len(),
        counts[k].door@ == sensors[i].door@,
        forall|j: int| 0 <= j < k ==> counts[j].door@ != sensors[i].door@,
        counts[k].time <= now - 345600000,
    ensures
        !sensor_is_live(counts, sensors[i], now),
        !all_live(counts, sensors, now),
{
    first_count_from_is_first_match(counts, sensors[i].door@, 0);
    live_sensor_conditions(counts, sensors[i], now);
    if sensor_is_live(counts, sensors[i], now) {
        let k2 = choose|k2: int|
            #![trigger counts[k2]]
            0 <= k2 < counts.len() && counts[k2].door@ == sensors[i].door@ && (forall|j: int|
                0 <= j < k2 ==> counts[j].door@ != sensors[i].door@) && counts[k2].time > now - 345600000
                && !(sensors[i].error matches Some(error) && error > counts[k2].time);
        if k2 < k {
            assert(counts[k2].door@ != sensors[i].door@);
        } else if k < k2 {
            assert(counts[k].door@ != sensors[i].door@);
        }
    }
}

} // verus!
