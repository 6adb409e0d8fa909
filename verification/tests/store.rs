use sensor::models::count::CountEntry;
use sensor::store::{after_retry, read_store, Record};
use std::path::PathBuf;

fn record(time: i64) -> Record {
    Record {
        path: PathBuf::from(format!("store/{}", time)),
        entry: CountEntry {
            time,
            door: "test;door".to_owned(),
            location: "test".to_owned(),
            direction_in: 1,
            direction_out: 0,
            nightowl: false,
        },
    }
}

#[test]
fn complete_listing_gives_every_record() {
    let store = read_store(Some(vec![Some(record(1)), Some(record(2))]));
    assert_eq!(store.len(), 2);
    assert_eq!(store[0].entry.time, 1);
    assert_eq!(store[1].path, PathBuf::from("store/2"));
}

#[test]
fn any_failure_gives_an_empty_store() {
    assert!(read_store(None).is_empty());
    assert!(read_store(Some(vec![Some(record(1)), None, Some(record(3))])).is_empty());
    assert!(read_store(Some(vec![])).is_empty());
}

#[test]
fn mod_store_and_read_test() {
    let expected_entry = CountEntry {
        time: 123,
        door: "test;door".to_owned(),
        location: "test".to_owned(),
        direction_in: 1,
        direction_out: 0,
        nightowl: false,
    };
    let stored = Record { path: PathBuf::from("store/123"), entry: expected_entry.clone() };

    let store = read_store(Some(vec![Some(stored)]));
    assert_eq!(store.len(), 1);
    let record = store.into_iter().last().unwrap();

    assert!(expected_entry.time == record.entry.time);
    assert_eq!(record.entry, expected_entry);
    assert_eq!(record.path, PathBuf::from("store/123"));

    let empty_store = read_store(Some(vec![]));

    assert!(empty_store.is_empty());
}

#[test]
fn only_an_uploaded_record_is_deleted() {
    assert_eq!(after_retry(record(7), true), Some(PathBuf::from("store/7")));
    assert_eq!(after_retry(record(7), false), None);
}
