use sensor::device::handler::assets::content_type_for;
use sensor::device::models::heartbeat::{Heartbeat, HeartbeatEntry};
use sensor::device::models::{get_direction, get_location, CounterRequest, SensorEntry};

fn get_request(rule_name: &str, time: &str) -> CounterRequest {
    CounterRequest {
        channel_id: "ddbbe807-8560-4bc7-b04b-4b3b04c69339".to_string(),
        channel_name: "test;back;door".to_string(),
        event_name: "Crossed line".to_string(),
        event_origin: "Pedestrian".to_string(),
        event_time: time.to_string(),
        event_type: "TripwireCrossed".to_string(),
        object_id: 9,
        rule_id: "471fa55d-967b-46a7-b77f-5b9ce6af82ee".to_string(),
        rule_name: rule_name.to_string(),
    }
}

fn get_test_entry(enter: bool, time: &str) -> sensor::device::models::CounterEntry {
    let rule_name = match enter {
        true => "Enter",
        false => "Exit",
    };
    get_request(rule_name, time).to_entry()
}

fn get_test_error(time: &str) -> SensorEntry {
    get_request("Camera Disconnected", time).to_error_sensor_entry()
}

#[test]
fn mod_entry_test() {
    let entry = get_test_entry(true, "2023-01-08T15:11:45+01:00");
    assert_eq!(entry.time, 1673187105000);
    assert_eq!(entry.location, "test".to_string());
    assert_eq!(entry.door, "test;back;door".to_string());
    assert_eq!(entry.location, "test".to_string());
    assert!(!entry.nightowl);
    assert!(entry.enter);
    assert_eq!(entry.direction_in, 1);
    assert_eq!(entry.direction_out, 0);
}

#[test]
fn exit_test() {
    let entry = get_test_entry(false, "2023-01-08T15:11:45+01:00");
    assert!(!entry.enter);
    assert_eq!(entry.direction_in, 0);
    assert_eq!(entry.direction_out, 1);
}

#[test]
fn mod_nigth_owl_test() {
    let early = get_test_entry(true, "2023-01-08T05:11:45+01:00");
    let late = get_test_entry(true, "2023-01-08T22:11:45+01:00");

    assert!(early.nightowl);
    assert!(late.nightowl);
}

#[test]
fn mod_error_test() {
    let entry = get_test_error("2023-01-08T15:11:45+01:00");

    assert_eq!(entry.error, Some(1673187105000));
    assert_eq!(entry.location, "test".to_string());
    assert_eq!(entry.door, "test;back;door".to_string());
    assert_eq!(entry.location, "test".to_string());
}

#[test]
fn uncountable_events_give_nothing() {
    assert_eq!(get_request(" Enter ", "2050-01-01T15:00:00+01:00").try_to_entry(), None);
    assert_eq!(get_request("Enter", "2050-01-01").try_to_entry(), None);
    assert_eq!(get_request("Enter", "2050-01-01").try_to_error_sensor_entry(), None);
    let entry = get_request("Exit", "2050-01-01T15:00:00+01:00").try_to_entry().unwrap();
    assert_eq!(entry, get_request("Exit", "2050-01-01T15:00:00+01:00").to_entry());
    let error = get_request("Enter", "2050-01-01T15:00:00+01:00").try_to_error_sensor_entry().unwrap();
    assert_eq!(error.heartbeat, None);
    assert_eq!(error.error, Some(2524658400000));
}

#[test]
fn device_location_and_direction() {
    assert_eq!(get_location("test;back;door"), "test");
    assert_eq!(get_location("lobby"), "lobby");
    assert!(get_direction("Enter"));
    assert!(!get_direction("Exit"));
}

#[test]
fn device_heartbeat_round_trip() {
    let beat = Heartbeat { error: None, heartbeat: Some(42) };
    let entry = beat.clone().to_entry("hall;east".to_string()).unwrap();
    assert_eq!(
        entry,
        HeartbeatEntry {
            door: "hall;east".to_string(),
            location: "hall".to_string(),
            error: None,
            heartbeat: Some(42),
        }
    );
    assert_eq!(entry.to_heartbeat(), beat);
}

#[test]
fn content_types_by_ending() {
    assert_eq!(content_type_for("style.css"), "text/css");
    assert_eq!(content_type_for("app.min.js"), "text/javascript");
    assert_eq!(content_type_for("index.html"), "text/plain");
    assert_eq!(content_type_for("css"), "text/css");
    assert_eq!(content_type_for("js.txt"), "text/plain");
    assert_eq!(content_type_for("archive.css.gz"), "text/plain");
    assert_eq!(content_type_for(""), "text/plain");
}
