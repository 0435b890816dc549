use std::collections::BTreeMap;

use user_events::errors::CommonError;
use user_events::model::{Event, User};
use user_events::store::{NewEventOutcome, NewEventParams, RemoveEventParams, UserStore};

fn user(uuid: u128, name: &str, events: &[(u128, &str, i64)]) -> User {
    let mut map = BTreeMap::new();
    for (k, n, d) in events {
        map.insert(*k, Event::new(*k, n.to_string(), *d).unwrap());
    }
    User::new(uuid, name.to_string(), map).unwrap()
}

fn sample_store() -> UserStore {
    UserStore::new(vec![
        user(10, "Anna", &[(3, "Dentist", 100), (1, "Gym", 50)]),
        user(20, "Boris", &[]),
        user(10, "Second Anna", &[]),
    ])
}

fn event_keys(store: &UserStore, i: usize) -> Vec<u128> {
    store.user(i).events_in_order().iter().map(|e| e.uuid()).collect()
}

#[test]
fn empty_names_are_refused() {
    assert_eq!(Event::new(1, String::new(), 0).err(), Some(String::new()));
    assert!(User::new(1, String::new(), BTreeMap::new()).is_err());
    assert!(NewEventParams::new(1, String::new(), 0).is_err());
    let e = Event::new(7, "Party".to_string(), 42).unwrap();
    assert_eq!((e.uuid(), e.name(), e.date()), (7, "Party", 42));
}

#[test]
fn find_user_takes_the_first_match() {
    let store = sample_store();
    assert_eq!(store.find_user(10), Some(0));
    assert_eq!(store.find_user(20), Some(1));
    assert_eq!(store.find_user(30), None);
    assert_eq!(store.len(), 3);
}

#[test]
fn events_come_in_key_order() {
    let store = sample_store();
    assert_eq!(event_keys(&store, 0), vec![1, 3]);
    let names: Vec<&str> = store.user(0).events_in_order().iter().map(|e| e.name()).collect();
    assert_eq!(names, vec!["Gym", "Dentist"]);
    assert!(store.user(1).events_in_order().is_empty());
}

#[test]
fn add_event_with_key_inserts_under_the_key() {
    let mut store = sample_store();
    let params = NewEventParams::new(10, "Cinema".to_string(), 77).unwrap();
    let outcome = store.add_event_with_key(params, 2);
    assert!(matches!(outcome, NewEventOutcome::Inserted { user: 0, key: 2 }));
    assert_eq!(event_keys(&store, 0), vec![1, 2, 3]);
    let added = store.user(0).events_in_order()[1];
    assert_eq!((added.uuid(), added.name(), added.date()), (2, "Cinema", 77));
    assert_eq!(event_keys(&store, 2), Vec::<u128>::new());
}

#[test]
fn add_event_with_taken_key_changes_nothing() {
    let mut store = sample_store();
    let params = NewEventParams::new(10, "Again".to_string(), 5).unwrap();
    let outcome = store.add_event_with_key(params, 3);
    assert!(matches!(outcome, NewEventOutcome::KeyTaken { user: 0, key: 3 }));
    let names: Vec<&str> = store.user(0).events_in_order().iter().map(|e| e.name()).collect();
    assert_eq!(names, vec!["Gym", "Dentist"]);
}

#[test]
fn add_event_for_unknown_user_changes_nothing() {
    let mut store = sample_store();
    let params = NewEventParams::new(99, "Lost".to_string(), 5).unwrap();
    assert!(matches!(store.add_event_with_key(params, 4), NewEventOutcome::UserNotFound));
    assert_eq!(event_keys(&store, 0), vec![1, 3]);
    assert_eq!(event_keys(&store, 1), Vec::<u128>::new());
}

#[test]
fn process_new_event_uses_a_version_7_identifier() {
    let mut store = sample_store();
    let params = NewEventParams::new(20, "Meeting".to_string(), 1000).unwrap();
    match store.process_new_event(params) {
        NewEventOutcome::Inserted { user, key } => {
            assert_eq!(user, 1);
            assert_eq!((key >> 76) & 0xf, 7);
            assert_eq!((key >> 62) & 0x3, 2);
            assert_eq!(event_keys(&store, 1), vec![key]);
        }
        _ => panic!("the event was not inserted"),
    }
}

#[test]
fn remove_event_takes_the_event_out() {
    let mut store = sample_store();
    let r = store.remove_event(RemoveEventParams { user_uuid: 10, event_uuid: 3 });
    assert!(matches!(r, Ok(0)));
    assert_eq!(event_keys(&store, 0), vec![1]);
}

#[test]
fn remove_event_refuses_unknown_ids() {
    let mut store = sample_store();
    let r = store.remove_event(RemoveEventParams { user_uuid: 99, event_uuid: 3 });
    assert!(matches!(r, Err(CommonError::InvalidId)));
    let r = store.remove_event(RemoveEventParams { user_uuid: 20, event_uuid: 3 });
    assert!(matches!(r, Err(CommonError::InvalidId)));
    assert_eq!(event_keys(&store, 0), vec![1, 3]);
}

#[test]
fn removing_an_added_event_restores_the_user() {
    let mut store = sample_store();
    let params = NewEventParams::new(10, "Temporary".to_string(), 9).unwrap();
    assert!(matches!(store.add_event_with_key(params, 2), NewEventOutcome::Inserted { .. }));
    assert_eq!(store.find_user(10), Some(0));
    assert_eq!(store.find_user(20), Some(1));
    assert!(matches!(store.remove_event(RemoveEventParams { user_uuid: 10, event_uuid: 2 }), Ok(0)));
    assert_eq!(event_keys(&store, 0), vec![1, 3]);
    let names: Vec<&str> = store.user(0).events_in_order().iter().map(|e| e.name()).collect();
    assert_eq!(names, vec!["Gym", "Dentist"]);
}

#[test]
fn users_come_back_in_order() {
    let store = sample_store();
    let names: Vec<&str> = store.users_in_order().iter().map(|u| u.name()).collect();
    assert_eq!(names, vec!["Anna", "Boris", "Second Anna"]);
    let users = store.into_users();
    let (uuid, name, events) = users.into_iter().next().unwrap().into_parts();
    assert_eq!((uuid, name.as_str(), events.len()), (10, "Anna", 2));
}
