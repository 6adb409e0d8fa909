use chrono::{Duration, Utc};
use sensor::device::handler::health as device_health;
use sensor::device::models::heartbeat::HeartbeatEntry as DeviceHeartbeatEntry;
use sensor::handler::health::{
    check_sensor_and_latest_count_status, check_sensor_and_latest_count_status_at,
    find_latest_count, health_problems_at, HealthError,
};
use sensor::models::count::CountEntry;
use sensor::models::heartbeat::HeartbeatEntry;

fn count(door: &str, time: i64) -> CountEntry {
    CountEntry {
        time,
        door: door.to_string(),
        location: "test".to_string(),
        direction_in: 1,
        direction_out: 0,
        nightowl: false,
    }
}

fn sensor(door: &str, error: Option<i64>, heartbeat: Option<i64>) -> HeartbeatEntry {
    HeartbeatEntry {
        door: door.to_string(),
        location: "test".to_string(),
        error,
        heartbeat,
    }
}

fn device_sensor(door: &str, error: Option<i64>, heartbeat: Option<i64>) -> DeviceHeartbeatEntry {
    DeviceHeartbeatEntry {
        door: door.to_string(),
        location: "test".to_string(),
        error,
        heartbeat,
    }
}

#[test]
fn health_check_sensor_and_latest_count_status_test() {
    let door_1 = "test;door1";
    let door_2 = "test:door2";
    let now = Utc::now();

    let count_1 = count(door_1, (now - Duration::days(1)).timestamp_millis());
    let count_2 = count(door_2, (now - Duration::days(1)).timestamp_millis());

    let good_sensor_1 = sensor(door_1, None, Some(now.timestamp_millis()));
    let bad_sensor_1 = sensor(door_1, None, Some((now - Duration::days(2)).timestamp_millis()));
    let error_sensor_1 = sensor(door_1, Some(now.timestamp_millis()), Some(now.timestamp_millis()));
    let sensor_2 = sensor(door_2, None, Some(now.timestamp_millis()));

    // one sensor with good heartbeat
    assert!(check_sensor_and_latest_count_status(vec![count_1.clone()], vec![good_sensor_1.clone()]).is_ok());

    // two sensors with two counts
    assert!(check_sensor_and_latest_count_status(
        vec![count_1.clone(), count_2],
        vec![good_sensor_1.clone(), sensor_2.clone()]
    )
    .is_ok());

    // one sensor with bad heartbeat
    assert!(check_sensor_and_latest_count_status(vec![count_1.clone()], vec![bad_sensor_1]).is_err());

    // one sensor with error
    assert!(check_sensor_and_latest_count_status(vec![count_1.clone()], vec![error_sensor_1]).is_err());

    // two sensors one without count
    assert!(check_sensor_and_latest_count_status(vec![count_1], vec![good_sensor_1, sensor_2]).is_err());
}

#[test]
fn check_sensor_and_latest_count_status_test() {
    let door_1 = "test;door1";
    let door_2 = "test:door2";
    let now = Utc::now();

    let count_1 = count(door_1, (now - Duration::days(1)).timestamp_millis());
    let count_2 = count(door_2, (now - Duration::days(1)).timestamp_millis());

    let good_sensor_1 = device_sensor(door_1, None, Some(now.timestamp_millis()));
    let bad_sensor_1 = device_sensor(door_1, None, Some((now - Duration::days(2)).timestamp_millis()));
    let error_sensor_1 = device_sensor(door_1, Some(now.timestamp_millis()), Some(now.timestamp_millis()));
    let sensor_2 = device_sensor(door_2, None, Some(now.timestamp_millis()));

    // one sensor with good heartbeat
    assert!(device_health::check_sensor_and_latest_count_status(
        vec![count_1.clone()],
        vec![good_sensor_1.clone()]
    ));

    // two sensors with two counts
    assert!(device_health::check_sensor_and_latest_count_status(
        vec![count_1.clone(), count_2],
        vec![good_sensor_1.clone(), sensor_2.clone()]
    ));

    // one sensor with bad heartbeat
    assert!(!device_health::check_sensor_and_latest_count_status(
        vec![count_1.clone()],
        vec![bad_sensor_1]
    ));

    // one sensor with error
    assert!(!device_health::check_sensor_and_latest_count_status(
        vec![count_1.clone()],
        vec![error_sensor_1]
    ));

    // two sensors one without count
    assert!(!device_health::check_sensor_and_latest_count_status(
        vec![count_1],
        vec![good_sensor_1, sensor_2]
    ));
}

const DAY: i64 = 86400000;
const HOUR: i64 = 3600000;

#[test]
fn problems_are_listed_per_sensor_in_order() {
    let now = 100 * DAY;
    let counts = vec![count("a;1", now - 5 * DAY), count("b;2", now - DAY)];
    let sensors = vec![
        sensor("a;1", Some(now - DAY), Some(now - 3 * HOUR)),
        sensor("c;3", None, Some(now)),
        sensor("b;2", Some(now - 2 * DAY), None),
    ];
    let problems = health_problems_at(&counts, &sensors, now);
    assert_eq!(
        problems,
        vec![
            "Old heartbeat from a;1".to_string(),
            "Latest entry from a;1 is old".to_string(),
            "Error from a;1 is newer than latest count".to_string(),
            "No count for c;3".to_string(),
            "Old heartbeat from b;2".to_string(),
        ]
    );
    match check_sensor_and_latest_count_status_at(counts, sensors, now) {
        Err(HealthError::Unhealthy(json)) => assert_eq!(
            json,
            "[\"Old heartbeat from a;1\",\"Latest entry from a;1 is old\",\"Error from a;1 is newer than latest count\",\"No count for c;3\",\"Old heartbeat from b;2\"]"
        ),
        other => panic!("unexpected verdict {:?}", other),
    }
}

#[test]
fn all_good_verdict_text() {
    let now = 100 * DAY;
    let verdict = check_sensor_and_latest_count_status_at(vec![count("a", now)], vec![sensor("a", Some(now), Some(now))], now);
    assert_eq!(verdict.unwrap(), "[\"Good\"]");
    let verdict = check_sensor_and_latest_count_status_at(vec![], vec![], now);
    assert_eq!(verdict.unwrap(), "[\"Good\"]");
}

#[test]
fn problem_text_is_json_escaped() {
    let now = 100 * DAY;
    match check_sensor_and_latest_count_status_at(vec![], vec![sensor("say \"hi\"", None, Some(now))], now) {
        Err(HealthError::Unhealthy(json)) => assert_eq!(json, "[\"No count for say \\\"hi\\\"\"]"),
        other => panic!("unexpected verdict {:?}", other),
    }
}

#[test]
fn control_characters_are_escaped() {
    let now = 100 * DAY;
    let door = "a\\b\n\t\u{1}\u{1f}é";
    match check_sensor_and_latest_count_status_at(vec![], vec![sensor(door, None, Some(now))], now) {
        Err(HealthError::Unhealthy(json)) => {
            assert_eq!(json, "[\"No count for a\\\\b\\n\\t\\u0001\\u001fé\"]")
        }
        other => panic!("unexpected verdict {:?}", other),
    }
}

#[test]
fn latest_count_is_the_first_of_the_door() {
    let counts = vec![count("b", 1), count("a", 2), count("a", 3)];
    assert_eq!(find_latest_count(&counts, &"a".to_string()), Some(1));
    assert_eq!(find_latest_count(&counts, &"b".to_string()), Some(0));
    assert_eq!(find_latest_count(&counts, &"c".to_string()), None);
    let now = 100 * DAY;
    // the first count of door "a" is old; a later, fresher one is not looked at
    let counts = vec![count("a", now - 5 * DAY), count("a", now)];
    assert!(check_sensor_and_latest_count_status_at(counts, vec![sensor("a", None, Some(now))], now).is_err());
}

#[test]
fn age_limits_are_strict() {
    let now = 100 * DAY;
    let on_the_limit = vec![sensor("a", None, Some(now - 2 * HOUR))];
    assert!(check_sensor_and_latest_count_status_at(vec![count("a", now)], on_the_limit, now).is_err());
    let just_inside = vec![sensor("a", None, Some(now - 2 * HOUR + 1))];
    assert!(check_sensor_and_latest_count_status_at(vec![count("a", now - 4 * DAY + 1)], just_inside.clone(), now).is_ok());
    assert!(check_sensor_and_latest_count_status_at(vec![count("a", now - 4 * DAY)], just_inside, now).is_err());
    // an error at the same instant as the latest count is not newer
    assert!(check_sensor_and_latest_count_status_at(vec![count("a", now)], vec![sensor("a", Some(now), Some(now))], now).is_ok());
}

#[test]
fn device_allows_a_day_old_heartbeat() {
    let now = 100 * DAY;
    let counts = vec![count("a", now)];
    let stale_for_dashboard = device_sensor("a", None, Some(now - 5 * HOUR));
    assert!(device_health::check_sensor_and_latest_count_status_at(counts.clone(), vec![stale_for_dashboard], now));
    let stale = device_sensor("a", None, Some(now - DAY));
    assert!(!device_health::check_sensor_and_latest_count_status_at(counts.clone(), vec![stale], now));
    let no_beat = device_sensor("a", None, None);
    assert!(!device_health::check_sensor_and_latest_count_status_at(counts.clone(), vec![no_beat], now));
    let dashboard = check_sensor_and_latest_count_status_at(counts, vec![sensor("a", None, Some(now - 5 * HOUR))], now);
    assert!(dashboard.is_err());
}
