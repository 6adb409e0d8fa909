use sensor::handler::count::{after_upload, UploadAnswer};
use chrono::{Duration, Utc};
use sensor::clock::EventTime;
use sensor::models::count::{Count, CountEntry};
use sensor::models::database::row_payload;
use sensor::models::heartbeat::{Heartbeat, HeartbeatEntry};
use sensor::models::request::{is_nightowl, Request};
use sensor::models::{get_direction, get_location, ModelError};

fn test_request(rule_name: &str, time: &str) -> Request {
    Request {
        channel_id: "ddbbe807-8560-4bc7-b04b-4b3b04c69339".to_string(),
        channel_name: "test;back;door".to_string(),
        event_name: "Crossed line".to_string(),
        event_origin: "Pedestrian".to_string(),
        event_time: time.to_string(),
        event_type: "TripwireCrossed".to_string(),
        object_id: 9,
        rule_id: "471fa55d-967b-46a7-b77f-5b9ce6af82ee".to_string(),
        rule_name: rule_name.to_string(),
    }
}

fn get_test_count(enter: bool, time: &str) -> Count {
    let rule_name = match enter {
        true => "Enter",
        false => "Exit",
    };
    test_request(rule_name, time).to_count().unwrap()
}

#[test]
fn count_entry_test() {
    let entering = true;
    let count = get_test_count(entering, "2023-01-08T15:11:45+01:00");
    assert_eq!(count.timestamp, 1673187105000);
    assert_eq!(count.entering, entering);
}

#[test]
fn count_nigth_owl_test() {
    let early = get_test_count(true, "2023-01-08T05:11:45+01:00");
    let late = get_test_count(false, "2023-01-08T22:11:45+01:00");

    assert!(early.nightowl);
    assert!(late.nightowl);
}

#[test]
fn is_newer_than_days_test() {
    let time = Utc::now() - Duration::days(3);
    let count = get_test_count(true, &time.to_rfc3339());

    assert!(!count.newer_than_days(1));
    assert!(count.newer_than_days(4));
}

#[test]
fn is_newer_than_hours_test() {
    let time = Utc::now() - Duration::hours(3);

    let heartbeat = Heartbeat {
        error: None,
        heartbeat: Some(time.timestamp_millis()),
    };

    let heartbeat_with_none = Heartbeat {
        error: None,
        heartbeat: Some(time.timestamp_millis()),
    };

    assert!(!heartbeat.newer_than_hours(1));
    assert!(heartbeat.newer_than_hours(4));
    assert!(!heartbeat_with_none.newer_than_hours(0))
}

#[test]
fn heartbeat_error_test() {
    let request = test_request("Camera Disconnected", "2023-01-08T15:11:45+01:00");
    let error_heartbeat = request.to_error_heartbeat().unwrap();
    assert_eq!(error_heartbeat.error, Some(1673187105000));
    assert_eq!(error_heartbeat.heartbeat, None);
}

#[test]
fn exit_and_day_time_count() {
    let count = get_test_count(false, "2023-01-08T15:11:45+01:00");
    assert!(!count.entering);
    assert!(!count.nightowl);
}

#[test]
fn night_starts_at_ten_and_ends_after_six() {
    let hour = |h: u32| EventTime { timestamp_millis: 0, hour: h };
    assert!(is_nightowl(&hour(22)));
    assert!(is_nightowl(&hour(0)));
    assert!(is_nightowl(&hour(6)));
    assert!(!is_nightowl(&hour(7)));
    assert!(!is_nightowl(&hour(21)));
}

#[test]
fn hour_is_read_in_the_event_offset() {
    // 23:30 UTC is 01:30 the next day at +02:00
    let count = get_test_count(true, "2023-01-09T01:30:00+02:00");
    assert_eq!(count.timestamp, 1673220600000);
    assert!(count.nightowl);
    let count = get_test_count(true, "2023-01-08T12:00:00-11:00");
    assert!(!count.nightowl);
}

#[test]
fn invalid_rule_name_is_refused() {
    let result = test_request("Camera Disconnected", "2023-01-08T15:11:45+01:00").to_count();
    assert_eq!(result, Err(ModelError::InvalidRuleName));
    assert_eq!(get_direction("enter"), Err(ModelError::InvalidRuleName));
    assert_eq!(get_direction(" Enter "), Err(ModelError::InvalidRuleName));
    assert_eq!(get_direction("Enter"), Ok(true));
    assert_eq!(get_direction("Exit"), Ok(false));
}

#[test]
fn invalid_event_time_is_refused_first() {
    let result = test_request("Camera Disconnected", "yesterday").to_count();
    assert!(matches!(result, Err(ModelError::InvalidEventTime(_))));
    let result = test_request("Enter", "2023-01-08 15:11:45").to_error_heartbeat();
    assert!(matches!(result, Err(ModelError::InvalidEventTime(_))));
}

#[test]
fn location_is_the_first_segment() {
    assert_eq!(get_location("test;back;door".to_string()), Ok("test".to_string()));
    assert_eq!(get_location("lobby".to_string()), Ok("lobby".to_string()));
    assert_eq!(get_location(";door".to_string()), Ok("".to_string()));
    assert_eq!(get_location("".to_string()), Ok("".to_string()));
    assert_eq!(get_location("kafé;dør".to_string()), Ok("kafé".to_string()));
}

#[test]
fn count_entry_round_trip() {
    for entering in [true, false] {
        let count = Count { timestamp: 1673187105000, entering, nightowl: !entering };
        let entry = count.to_entry("test;back;door".to_string()).unwrap();
        assert_eq!(entry.door, "test;back;door");
        assert_eq!(entry.location, "test");
        assert_eq!(entry.direction_in, if entering { 1 } else { 0 });
        assert_eq!(entry.direction_out, if entering { 0 } else { 1 });
        assert_eq!(entry.to_count(), count);
    }
}

#[test]
fn stored_row_direction() {
    let entry = CountEntry {
        time: 5,
        door: "a;b".to_string(),
        location: "a".to_string(),
        direction_in: 0,
        direction_out: 1,
        nightowl: true,
    };
    assert_eq!(entry.to_count(), Count { timestamp: 5, entering: false, nightowl: true });
}

#[test]
fn heartbeat_entry_round_trip() {
    let beat = Heartbeat { error: Some(7), heartbeat: None };
    let entry = beat.clone().to_entry("site;door".to_string()).unwrap();
    assert_eq!(
        entry,
        HeartbeatEntry {
            door: "site;door".to_string(),
            location: "site".to_string(),
            error: Some(7),
            heartbeat: None,
        }
    );
    assert_eq!(entry.to_heartbeat(), beat);
}

#[test]
fn newer_than_at_fixed_instants() {
    let now = 10 * 86400000;
    let count = Count { timestamp: now - 3 * 86400000, entering: true, nightowl: false };
    assert!(!count.newer_than_days_at(3, now));
    assert!(count.newer_than_days_at(4, now));
    assert!(!count.newer_than_days_at(i64::MIN, now));
    assert!(count.newer_than_days_at(i64::MAX, now));
    let beat = Heartbeat { error: None, heartbeat: Some(now - 3600000) };
    assert!(!beat.newer_than_hours_at(1, now));
    assert!(beat.newer_than_hours_at(2, now));
    let none = Heartbeat { error: None, heartbeat: None };
    assert!(!none.newer_than_hours_at(i64::MAX, now));
    assert!(!none.newer_than_hours(1000));
}

#[test]
fn row_payload_is_a_json_array() {
    assert_eq!(row_payload("{\"a\":1}"), "[{\"a\":1}]");
    assert_eq!(row_payload(""), "[]");
}

#[test]
fn heartbeat_at_an_instant() {
    assert_eq!(Heartbeat::beat_at(99), Heartbeat { error: None, heartbeat: Some(99) });
}

#[test]
fn upload_outcome_decides_store_and_answer() {
    let entry = Count { timestamp: 1, entering: true, nightowl: false }.to_entry("a;b".to_string()).unwrap();
    match after_upload(true, entry.clone(), "{}".to_string()) {
        UploadAnswer::Created { count_text } => assert_eq!(count_text, "{}"),
        other => panic!("unexpected {:?}", other),
    }
    match after_upload(false, entry.clone(), "{}".to_string()) {
        UploadAnswer::StoreAndRefuse { entry: kept, count_text } => {
            assert_eq!(kept, entry);
            assert_eq!(count_text, "{}");
        }
        other => panic!("unexpected {:?}", other),
    }
}
