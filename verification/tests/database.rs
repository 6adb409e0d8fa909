use sensor::models::count::CountEntry;
use sensor::models::database::LatestCountScan;
use sensor::models::heartbeat::HeartbeatEntry;

fn sensor(door: &str) -> HeartbeatEntry {
    HeartbeatEntry { door: door.to_string(), location: "test".to_string(), error: None, heartbeat: Some(1) }
}

fn count(door: &str, time: i64) -> CountEntry {
    CountEntry {
        time,
        door: door.to_string(),
        location: "test".to_string(),
        direction_in: 1,
        direction_out: 0,
        nightowl: false,
    }
}

#[test]
fn scan_asks_each_door_in_order_and_keeps_answers() {
    let sensors = vec![sensor("test;sensor1"), sensor("test;sensor2"), sensor("test;sensor3")];
    let mut scan = LatestCountScan::new(&sensors);
    let mut asked = Vec::new();
    while let Some(door) = scan.next_door() {
        let answer = if door == "test;sensor2" { vec![] } else { vec![count(&door, asked.len() as i64)] };
        asked.push(door);
        scan.record(answer);
    }
    assert_eq!(asked, vec!["test;sensor1", "test;sensor2", "test;sensor3"]);
    assert_eq!(scan.finish(), vec![count("test;sensor1", 0), count("test;sensor3", 2)]);
}

#[test]
fn scan_without_sensors_is_done_at_once() {
    let scan = LatestCountScan::new(&vec![]);
    assert_eq!(scan.next_door(), None);
    assert!(scan.finish().is_empty());
}

use sensor::models::database::first_row;

#[test]
fn first_row_or_nothing() {
    assert_eq!(first_row(vec![count("a", 1), count("b", 2)]), Some(count("a", 1)));
    assert_eq!(first_row(Vec::<CountEntry>::new()), None);
}
