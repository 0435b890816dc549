use std::collections::BTreeMap;

use user_events::errors::CommonError;
use user_events::model::{Event, User};
use user_events::pages::{process_event, process_users_page, Page};
use user_events::store::{NewEventOutcome, NewEventParams, RemoveEventParams, UserStore};

fn user(uuid: u128, name: &str, events: &[(u128, &str, i64)]) -> User {
    let mut map = BTreeMap::new();
    for (k, n, d) in events {
        map.insert(*k, Event::new(*k, n.to_string(), *d).unwrap());
    }
    User::new(uuid, name.to_string(), map).unwrap()
}

fn sample_store() -> UserStore {
    UserStore::new(vec![
        user(10, "Anna", &[(30, "Dentist", 100), (5, "Gym", 50)]),
        user(20, "Boris", &[]),
    ])
}

#[test]
fn static_pages() {
    assert!(matches!(process_users_page(), Page::Users));
    match process_event() {
        Page::Events { events } => assert!(events.is_empty()),
        _ => panic!("wrong page"),
    }
}

#[test]
fn index_and_users_list_show_all_users() {
    let store = sample_store();
    match store.process_index() {
        Page::Index { users } => {
            let names: Vec<&str> = users.iter().map(|u| u.name()).collect();
            assert_eq!(names, vec!["Anna", "Boris"]);
        }
        _ => panic!("wrong page"),
    }
    match store.process_users_list() {
        Page::UsersList { users } => assert_eq!(users.len(), 2),
        _ => panic!("wrong page"),
    }
}

#[test]
fn user_page_finds_the_user_or_says_not_found() {
    let store = sample_store();
    match store.process_user_page(20) {
        Page::User { user, message } => {
            assert_eq!(user.name(), "Boris");
            assert_eq!(message, None);
        }
        _ => panic!("wrong page"),
    }
    assert!(matches!(store.process_user_page(99), Page::NotFound));
    match store.process_get_user(10) {
        Page::UserDetails { user } => assert_eq!(user.uuid(), 10),
        _ => panic!("wrong page"),
    }
    assert!(matches!(store.process_get_user(99), Page::NotFound));
}

#[test]
fn events_list_is_ordered_or_invalid_id() {
    let store = sample_store();
    match store.process_events_list(10) {
        Ok(Page::EventsList { message, user_uuid, events }) => {
            assert_eq!(message, None);
            assert_eq!(user_uuid, 10);
            let names: Vec<&str> = events.iter().map(|e| e.name()).collect();
            assert_eq!(names, vec!["Gym", "Dentist"]);
        }
        _ => panic!("wrong page"),
    }
    assert!(matches!(store.process_events_list(99), Err(CommonError::InvalidId)));
}

#[test]
fn new_event_pages() {
    let mut store = sample_store();
    let params = NewEventParams::new(20, "Concert".to_string(), 500).unwrap();
    let outcome = store.add_event_with_key(params, 1);
    match store.new_event_page(&outcome) {
        Page::User { user, message } => {
            assert_eq!(user.name(), "Boris");
            assert_eq!(message, Some("Event inserted"));
            assert_eq!(user.events_in_order()[0].name(), "Concert");
        }
        _ => panic!("wrong page"),
    }
    let params = NewEventParams::new(20, "Concert".to_string(), 500).unwrap();
    let outcome = store.add_event_with_key(params, 1);
    assert!(matches!(store.new_event_page(&outcome), Page::Error));
    let params = NewEventParams::new(77, "Concert".to_string(), 500).unwrap();
    let outcome = store.add_event_with_key(params, 1);
    assert!(matches!(outcome, NewEventOutcome::UserNotFound));
    assert!(matches!(store.new_event_page(&outcome), Page::NotFound));
}

#[test]
fn removed_event_page_lists_what_is_left() {
    let mut store = sample_store();
    let i = store.remove_event(RemoveEventParams { user_uuid: 10, event_uuid: 5 }).unwrap();
    match store.remove_event_page(i) {
        Page::EventsList { message, user_uuid, events } => {
            assert_eq!(message, Some("Event removed"));
            assert_eq!(user_uuid, 10);
            let keys: Vec<u128> = events.iter().map(|e| e.uuid()).collect();
            assert_eq!(keys, vec![30]);
        }
        _ => panic!("wrong page"),
    }
}
