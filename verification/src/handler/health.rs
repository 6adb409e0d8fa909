//! The health verdict over the sensors' heartbeats and their latest counts.

use crate::clock::now_millis;
use crate::models::count::CountEntry;
use crate::models::heartbeat::{Heartbeat, HeartbeatEntry};
use vstd::prelude::*;
use vstd::string::*;

verus! {

/// A heartbeat older than this many hours makes a sensor unhealthy.
pub const HEARTBEAT_MAX_AGE_HOURS: i64 = 2;

/// A latest count older than this many days makes a sensor unhealthy.
pub const COUNT_MAX_AGE_DAYS: i64 = 4;

/// serde_json's `Error`, carried through as an opaque value.
#[verifier::external_type_specification]
#[verifier::external_body]
pub struct ExJsonError(serde_json::Error);

/// The character sequences of a list of strings.
pub open spec fn texts_of(items: Seq<String>) -> Seq<Seq<char>> {
    items.map_values(|item: String| item@)
}

/// The lower-case hexadecimal digit for `n` in `0..16`.
pub open spec fn hex_digit(n: int) -> char {
    seq!['0', '1', '2', '3', '4', '5', '6', '7', '8', '9', 'a', 'b', 'c', 'd', 'e', 'f'][n]
}

/// How a character stands inside a JSON string: `"` and `\` and the control
/// characters are escaped (the short forms where JSON has one, else
/// `\u00xx`); every other character stands for itself.
pub open spec fn json_escape(c: char) -> Seq<char> {
    if c == '"' {
        seq!['\\', '"']
    } else if c == '\\' {
        seq!['\\', '\\']
    } else if c == '\u{8}' {
        seq!['\\', 'b']
    } else if c == '\t' {
        seq!['\\', 't']
    } else if c == '\n' {
        seq!['\\', 'n']
    } else if c == '\u{c}' {
        seq!['\\', 'f']
    } else if c == '\r' {
        seq!['\\', 'r']
    } else if (c as int) < 0x20 {
        seq!['\\', 'u', '0', '0', hex_digit(c as int / 16), hex_digit(c as int % 16)]
    } else {
        seq![c]
    }
}

/// The characters of `s`, each as it stands inside a JSON string.
pub open spec fn json_escaped(s: Seq<char>) -> Seq<char>
    decreases s.len(),
{
    if s.len() == 0 {
        Seq::empty()
    } else {
        json_escaped(s.drop_last()) + json_escape(s.last())
    }
}

/// The strings as JSON strings, separated by commas.
pub open spec fn json_list_items(items: Seq<Seq<char>>) -> Seq<char>
    decreases items.len(),
{
    if items.len() == 0 {
        Seq::empty()
    } else if items.len() == 1 {
        seq!['"'] + json_escaped(items[0]) + seq!['"']
    } else {
        json_list_items(items.drop_last()) + seq![','] + seq!['"'] + json_escaped(items.last()) + seq!['"']
    }
}

/// The JSON array of the strings, written compactly.
pub open spec fn json_string_list(items: Seq<Seq<char>>) -> Seq<char> {
    seq!['['] + json_list_items(items) + seq![']']
}

/// Serialises a list of strings with `serde_json::to_string`. Claimed of
/// serde_json (`ser.rs`: `to_string`, the compact formatter's array and
/// string writers and their escape table): it succeeds, and writes the
/// compact JSON array `json_string_list` of the strings.
#[verifier::external_body]
fn strings_to_json(items: &Vec<String>) -> (r: Result<String, serde_json::Error>)
    ensures
        r is Ok,
        r->Ok_0@ == json_string_list(texts_of(items@)),
{
    serde_json::to_string(items)
}

/// Why the dashboard reports the sensors as unhealthy: the JSON list of the
/// problems found.
#[derive(Debug)]
pub enum HealthError {
    Unhealthy(String),
}

/// Position of the first count from index `from` on that belongs to `door`.
pub open spec fn first_count_from(counts: Seq<CountEntry>, door: Seq<char>, from: int) -> Option<int>
    decreases counts.len() - from,
{
    if from < 0 || from >= counts.len() {
        None
    } else if counts[from].door@ == door {
        Some(from)
    } else {
        first_count_from(counts, door, from + 1)
    }
}

/// Position of the latest count of `door`: the first count in the list that belongs to it.
pub open spec fn latest_count_index(counts: Seq<CountEntry>, door: Seq<char>) -> Option<int> {
    first_count_from(counts, door, 0)
}

/// The problem reported for a heartbeat that is missing or too old.
pub open spec fn heartbeat_problems(sensor: HeartbeatEntry, now: int) -> Seq<Seq<char>> {
    if !sensor.spec_to_heartbeat().is_newer_than_hours_at(HEARTBEAT_MAX_AGE_HOURS as int, now) {
        seq!["Old heartbeat from "@ + sensor.door@]
    } else {
        Seq::empty()
    }
}

/// The problems reported about a sensor's latest count `latest`.
pub open spec fn latest_count_problems(sensor: HeartbeatEntry, latest: CountEntry, now: int) -> Seq<Seq<char>> {
    let age = if !latest.spec_to_count().is_newer_than_days_at(COUNT_MAX_AGE_DAYS as int, now) {
        seq!["Latest entry from "@ + latest.door@ + " is old"@]
    } else {
        Seq::<Seq<char>>::empty()
    };
    let error = match sensor.error {
        Some(error) => if error > latest.time {
            seq!["Error from "@ + latest.door@ + " is newer than latest count"@]
        } else {
            Seq::<Seq<char>>::empty()
        },
        None => Seq::<Seq<char>>::empty(),
    };
    age + error
}

/// The problems reported about one sensor, in the order they are found.
pub open spec fn sensor_problems(counts: Seq<CountEntry>, sensor: HeartbeatEntry, now: int) -> Seq<Seq<char>> {
    heartbeat_problems(sensor, now) + match latest_count_index(counts, sensor.door@) {
        Some(i) => latest_count_problems(sensor, counts[i], now),
        None => seq!["No count for "@ + sensor.door@],
    }
}

/// The problems reported about all sensors, sensor by sensor.
pub open spec fn health_problems(counts: Seq<CountEntry>, sensors: Seq<HeartbeatEntry>, now: int) -> Seq<Seq<char>>
    decreases sensors.len(),
{
    if sensors.len() == 0 {
        Seq::empty()
    } else {
        health_problems(counts, sensors.drop_last(), now) + sensor_problems(counts, sensors.last(), now)
    }
}

/// A sensor is healthy: a heartbeat within two hours, a latest count within
/// four days, and no error newer than that count.
pub open spec fn sensor_is_healthy(counts: Seq<CountEntry>, sensor: HeartbeatEntry, now: int) -> bool {
    &&& sensor.spec_to_heartbeat().is_newer_than_hours_at(HEARTBEAT_MAX_AGE_HOURS as int, now)
    &&& match latest_count_index(counts, sensor.door@) {
        Some(i) => {
            &&& counts[i].spec_to_count().is_newer_than_days_at(COUNT_MAX_AGE_DAYS as int, now)
            &&& !(sensor.error matches Some(error) && error > counts[i].time)
        },
        None => false,
    }
}

/// What the health check answers for the problems found.
pub open spec fn is_report_of(r: Result<String, HealthError>, problems: Seq<Seq<char>>) -> bool {
    if problems.len() == 0 {
        r matches Ok(text) && text@ == "[\"Good\"]"@
    } else {
        r matches Err(HealthError::Unhealthy(text)) && text@ == json_string_list(problems)
    }
}

/// The index of the latest count of `door` in `counts`.
pub fn find_latest_count(counts: &Vec<CountEntry>, door: &String) -> (r: Option<usize>)
    ensures
        r is None <==> latest_count_index(counts@, door@) is None,
        r matches Some(i) ==> latest_count_index(counts@, door@) == Some(i as int),
        r matches Some(i) ==> i < counts@.len() && counts@[i as int].door@ == door@,
{
    let n = counts.len();
    let mut i: usize = 0;
    while i < n
        invariant
            n == counts@.len(),
            i <= n,
            latest_count_index(counts@, door@) == first_count_from(counts@, door@, i as int),
        decreases n - i,
    {
        if counts[i].door == *door {
            return Some(i);
        }
        i = i + 1;
    }
    None
}

/// The problems found about one sensor at the instant `now`.
pub fn sensor_problems_at(counts: &Vec<CountEntry>, sensor: &HeartbeatEntry, now: i64) -> (r: Vec<String>)
    ensures
        texts_of(r@) == sensor_problems(counts@, *sensor, now as int),
        r@.len() == 0 <==> {
            &&& sensor.heartbeat matches Some(beat) && beat > now - 7200000
            &&& exists|k: int|
                #![trigger counts@[k]]
                0 <= k < counts@.len() && counts@[k].door@ == sensor.door@ && (forall|j: int|
                    0 <= j < k ==> counts@[j].door@ != sensor.door@) && counts@[k].time > now - 345600000
                    && !(sensor.error matches Some(error) && error > counts@[k].time)
        },
{
    proof {
        healthy_sensor_conditions(counts@, *sensor, now as int);
        sensor_without_problems_is_healthy(counts@, *sensor, now as int);
    }
    let mut problems: Vec<String> = Vec::new();
    let beat = Heartbeat { error: sensor.error, heartbeat: sensor.heartbeat };
    if !beat.newer_than_hours_at(HEARTBEAT_MAX_AGE_HOURS, now) {
        let mut message = "Old heartbeat from ".to_owned();
        message.append(sensor.door.as_str());
        problems.push(message);
    }
    assert(texts_of(problems@) =~= heartbeat_problems(*sensor, now as int));
    let ghost before = texts_of(problems@);
    match find_latest_count(counts, &sensor.door) {
        Some(i) => {
            let latest = &counts[i];
            if !latest.to_count().newer_than_days_at(COUNT_MAX_AGE_DAYS, now) {
                let mut message = "Latest entry from ".to_owned();
                message.append(latest.door.as_str());
                message.append(" is old");
                problems.push(message);
            }
            if let Some(error) = sensor.error {
                if error > latest.time {
                    let mut message = "Error from ".to_owned();
                    message.append(latest.door.as_str());
                    message.append(" is newer than latest count");
                    problems.push(message);
                }
            }
            assert(texts_of(problems@) =~= before + latest_count_problems(*sensor, counts@[i as int], now as int));
            assert(latest_count_index(counts@, sensor.door@) == Some(i as int));
            assert(texts_of(problems@) == sensor_problems(counts@, *sensor, now as int));
        },
        None => {
            let mut message = "No count for ".to_owned();
            message.append(sensor.door.as_str());
            problems.push(message);
            assert(texts_of(problems@) =~= before + seq!["No count for "@ + sensor.door@]);
            assert(texts_of(problems@) == sensor_problems(counts@, *sensor, now as int));
        },
    }
    problems
}

/// The problems found about all sensors at the instant `now`.
pub fn health_problems_at(count_entries: &Vec<CountEntry>, sensor_entries: &Vec<HeartbeatEntry>, now: i64) -> (r: Vec<String>)
    ensures
        texts_of(r@) == health_problems(count_entries@, sensor_entries@, now as int),
{
    let mut problems: Vec<String> = Vec::new();
    let n = sensor_entries.len();
    let mut i: usize = 0;
    assert(sensor_entries@.take(0) =~= Seq::<HeartbeatEntry>::empty());
    while i < n
        invariant
            n == sensor_entries@.len(),
            i <= n,
            texts_of(problems@) == health_problems(count_entries@, sensor_entries@.take(i as int), now as int),
        decreases n - i,
    {
        let mut found = sensor_problems_at(count_entries, &sensor_entries[i], now);
        let ghost old_problems = problems@;
        let ghost found_before = found@;
        problems.append(&mut found);
        assert(problems@ == old_problems + found_before);
        assert(texts_of(problems@) =~= texts_of(old_problems) + texts_of(found_before));
        assert(sensor_entries@.take(i as int + 1).drop_last() =~= sensor_entries@.take(i as int));
        assert(sensor_entries@.take(i as int + 1).last() == sensor_entries@[i as int]);
        i = i + 1;
    }
    assert(sensor_entries@.take(n as int) =~= sensor_entries@);
    problems
}

/// The health verdict at the instant `now`: `["Good"]` when no problem is
/// found, else the JSON list of the problems as the error.
pub fn check_sensor_and_latest_count_status_at(
    count_entries: Vec<CountEntry>,
    sensor_entries: Vec<HeartbeatEntry>,
    now: i64,
) -> (r: Result<String, HealthError>)
    ensures
        is_report_of(r, health_problems(count_entries@, sensor_entries@, now as int)),
        r is Ok <==> forall|i: int|
            0 <= i < sensor_entries@.len() ==> #[trigger] sensor_is_healthy(
                count_entries@,
                sensor_entries@[i],
                now as int,
            ),
        r is Ok <==> forall|i: int|
            #![trigger sensor_entries@[i]]
            0 <= i < sensor_entries@.len() ==> {
                &&& sensor_entries@[i].heartbeat matches Some(beat) && beat > now - 7200000
                &&& exists|k: int|
                    #![trigger count_entries@[k]]
                    0 <= k < count_entries@.len() && count_entries@[k].door@ == sensor_entries@[i].door@
                        && (forall|j: int| 0 <= j < k ==> count_entries@[j].door@ != sensor_entries@[i].door@)
                        && count_entries@[k].time > now - 345600000
                        && !(sensor_entries@[i].error matches Some(error) && error > count_entries@[k].time)
            },
{
    let problems = health_problems_at(&count_entries, &sensor_entries, now);
    proof {
        healthy_exactly_without_problems(count_entries@, sensor_entries@, now as int);
        let ghost counts = count_entries@;
        let ghost sensors = sensor_entries@;
        let ghost t = now as int;
        let ghost all_healthy = forall|i: int|
            0 <= i < sensors.len() ==> #[trigger] sensor_is_healthy(counts, sensors[i], t);
        let ghost all_conditions = forall|i: int|
            #![trigger sensors[i]]
            0 <= i < sensors.len() ==> {
                &&& sensors[i].heartbeat matches Some(beat) && beat > t - 7200000
                &&& exists|k: int|
                    #![trigger counts[k]]
                    0 <= k < counts.len() && counts[k].door@ == sensors[i].door@
                        && (forall|j: int| 0 <= j < k ==> counts[j].door@ != sensors[i].door@)
                        && counts[k].time > t - 345600000
                        && !(sensors[i].error matches Some(error) && error > counts[k].time)
            };
        if all_healthy {
            assert forall|i: int| #![trigger sensors[i]] 0 <= i < sensors.len() implies {
                &&& sensors[i].heartbeat matches Some(beat) && beat > t - 7200000
                &&& exists|k: int|
                    #![trigger counts[k]]
                    0 <= k < counts.len() && counts[k].door@ == sensors[i].door@
                        && (forall|j: int| 0 <= j < k ==> counts[j].door@ != sensors[i].door@)
                        && counts[k].time > t - 345600000
                        && !(sensors[i].error matches Some(error) && error > counts[k].time)
            } by {
                assert(sensor_is_healthy(counts, sensors[i], t));
                healthy_sensor_conditions(counts, sensors[i], t);
            }
        }
        if all_conditions {
            assert forall|i: int| 0 <= i < sensors.len() implies #[trigger] sensor_is_healthy(counts, sensors[i], t) by {
                assert(sensors[i] == sensors[i]);
                healthy_sensor_conditions(counts, sensors[i], t);
            }
        }
        assert(all_healthy == all_conditions);
    }
    if problems.len() > 0 {
        return match strings_to_json(&problems) {
            Ok(json) => Err(HealthError::Unhealthy(json)),
            Err(_) => vstd::pervasive::unreached(),
        };
    }
    Ok("[\"Good\"]".to_owned())
}

/// The health verdict now, by the clock.
pub fn check_sensor_and_latest_count_status(
    count_entries: Vec<CountEntry>,
    sensor_entries: Vec<HeartbeatEntry>,
) -> (r: Result<String, HealthError>)
    ensures
        exists|now: i64| #[trigger]
            is_report_of(r, health_problems(count_entries@, sensor_entries@, now as int)),
{
    let now = now_millis();
    let ghost counts = count_entries@;
    let ghost sensors = sensor_entries@;
    let r = check_sensor_and_latest_count_status_at(count_entries, sensor_entries, now);
    assert(is_report_of(r, health_problems(counts, sensors, now as int)));
    r
}

/// What `first_count_from` finds, position by position: the first count of
/// `door` at or after `from`, or none when no count from there belongs to it.
pub proof fn first_count_from_is_first_match(counts: Seq<CountEntry>, door: Seq<char>, from: int)
    requires
        0 <= from,
    ensures
        match first_count_from(counts, door, from) {
            Some(k) => {
                &&& from <= k < counts.len()
                &&& counts[k].door@ == door
                &&& forall|j: int| from <= j < k ==> counts[j].door@ != door
            },
            None => forall|j: int| from <= j < counts.len() ==> counts[j].door@ != door,
        },
    decreases counts.len() - from,
{
    if from < counts.len() && counts[from].door@ != door {
        first_count_from_is_first_match(counts, door, from + 1);
    }
}

/// Law: a sensor is healthy exactly when it has a heartbeat later than two
/// hours before `now`, the first count of its door in the list is later than
/// four days before `now`, and no error it reported is later than that count.
pub proof fn healthy_sensor_conditions(counts: Seq<CountEntry>, sensor: HeartbeatEntry, now: int)
    ensures
        sensor_is_healthy(counts, sensor, now) <==> {
            &&& sensor.heartbeat matches Some(beat) && beat > now - 7200000
            &&& exists|k: int|
                #![trigger counts[k]]
                0 <= k < counts.len() && counts[k].door@ == sensor.door@ && (forall|j: int|
                    0 <= j < k ==> counts[j].door@ != sensor.door@) && counts[k].time > now - 345600000
                    && !(sensor.error matches Some(error) && error > counts[k].time)
        },
{
    first_count_from_is_first_match(counts, sensor.door@, 0);
    let rhs_count = exists|k: int|
        #![trigger counts[k]]
        0 <= k < counts.len() && counts[k].door@ == sensor.door@ && (forall|j: int|
            0 <= j < k ==> counts[j].door@ != sensor.door@) && counts[k].time > now - 345600000
            && !(sensor.error matches Some(error) && error > counts[k].time);
    match latest_count_index(counts, sensor.door@) {
        Some(k) => {
            if rhs_count {
                let k2 = choose|k2: int|
                    #![trigger counts[k2]]
                    0 <= k2 < counts.len() && counts[k2].door@ == sensor.door@ && (forall|j: int|
                        0 <= j < k2 ==> counts[j].door@ != sensor.door@) && counts[k2].time > now - 345600000
                        && !(sensor.error matches Some(error) && error > counts[k2].time);
                if k2 < k {
                    assert(counts[k2].door@ != sensor.door@);
                } else if k < k2 {
                    assert(counts[k].door@ != sensor.door@);
                }
                assert(k2 == k);
            }
            if counts[k].time > now - 345600000 && !(sensor.error matches Some(error) && error > counts[k].time) {
                assert(counts[k].door@ == sensor.door@);
                assert(rhs_count);
            }
        },
        None => {
            if rhs_count {
                let k2 = choose|k2: int|
                    #![trigger counts[k2]]
                    0 <= k2 < counts.len() && counts[k2].door@ == sensor.door@ && (forall|j: int|
                        0 <= j < k2 ==> counts[j].door@ != sensor.door@) && counts[k2].time > now - 345600000
                        && !(sensor.error matches Some(error) && error > counts[k2].time);
                assert(counts[k2].door@ != sensor.door@);
            }
        },
    }
}

/// A sensor yields no problem exactly when it is healthy.
pub proof fn sensor_without_problems_is_healthy(counts: Seq<CountEntry>, sensor: HeartbeatEntry, now: int)
    ensures
        sensor_problems(counts, sensor, now).len() == 0 <==> sensor_is_healthy(counts, sensor, now),
{
}

/// The check finds no problem exactly when every sensor is healthy.
pub proof fn healthy_exactly_without_problems(counts: Seq<CountEntry>, sensors: Seq<HeartbeatEntry>, now: int)
    ensures
        health_problems(counts, sensors, now).len() == 0 <==> forall|i: int|
            0 <= i < sensors.len() ==> #[trigger] sensor_is_healthy(counts, sensors[i], now),
    decreases sensors.len(),
{
    if sensors.len() > 0 {
        let front = sensors.drop_last();
        healthy_exactly_without_problems(counts, front, now);
        sensor_without_problems_is_healthy(counts, sensors.last(), now);
        if health_problems(counts, sensors, now).len() == 0 {
            assert forall|i: int| 0 <= i < sensors.len() implies #[trigger] sensor_is_healthy(counts, sensors[i], now) by {
                if i < sensors.len() - 1 {
                    assert(front[i] == sensors[i]);
                }
            }
        }
        if forall|i: int| 0 <= i < sensors.len() ==> #[trigger] sensor_is_healthy(counts, sensors[i], now) {
            assert forall|i: int| 0 <= i < front.len() implies #[trigger] sensor_is_healthy(counts, front[i], now) by {
                assert(front[i] == sensors[i]);
            }
            assert(sensor_is_healthy(counts, sensors[sensors.len() - 1], now));
        }
    }
}

/// Law: an error is weighed against the latest count alone. A sensor whose
/// heartbeat is under two hours old, whose latest count is under four days
/// old, and whose error is not later than that count is healthy, however the
/// error stands to the heartbeat.
pub proof fn error_before_latest_count_is_healthy(
    counts: Seq<CountEntry>,
    sensor: HeartbeatEntry,
    now: int,
    k: int,
)
    requires
        0 <= k < counts.len(),
        counts[k].door@ == sensor.door@,
        forall|j: int| 0 <= j < k ==> counts[j].door@ != sensor.door@,
        sensor.heartbeat matches Some(beat) && beat > now - 7200000,
        counts[k].time > now - 345600000,
        sensor.error matches Some(error) && error <= counts[k].time,
    ensures
        sensor_is_healthy(counts, sensor, now),
        sensor_problems(counts, sensor, now).len() == 0,
{
    healthy_sensor_conditions(counts, sensor, now);
    sensor_without_problems_is_healthy(counts, sensor, now);
}

} // verus!
