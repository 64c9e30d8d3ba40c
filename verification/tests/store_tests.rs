use daemon_core::event_store::EventStore;
use daemon_core::events::{DaemonEvent, EventSource};

fn event(id: &str, updated_at: u64) -> DaemonEvent {
    DaemonEvent::new_at(id.to_string(), format!("event {id}"), EventSource::User, None, None, updated_at)
}

#[test]
fn merge_replaces_same_id_and_appends_new() {
    let mut events = vec![event("a", 1), event("b", 2)];
    let mut replacement = event("a", 9);
    replacement.description = "new".to_string();
    EventStore::merge(&mut events, replacement);
    assert_eq!(events.len(), 2);
    assert_eq!(events[0].description, "new");
    assert_eq!(events[0].updated_at, 9);
    EventStore::merge(&mut events, event("c", 3));
    let ids: Vec<&str> = events.iter().map(|e| e.id.as_str()).collect();
    assert_eq!(ids, vec!["a", "b", "c"]);
}

#[test]
fn merged_event_is_found_again() {
    let mut events = vec![event("a", 1), event("b", 2)];
    EventStore::merge(&mut events, event("b", 42));
    let found = EventStore::take_by_id(events, "b").unwrap();
    assert_eq!(found.updated_at, 42);
}

#[test]
fn take_by_id_finds_the_first_match() {
    let events = vec![event("a", 1), event("x", 2), event("x", 3)];
    assert_eq!(EventStore::take_by_id(events, "x").unwrap().updated_at, 2);
    assert!(EventStore::take_by_id(vec![event("a", 1)], "zz").is_none());
}

#[test]
fn most_recent_sorts_by_update_time() {
    let events = vec![event("a", 5), event("b", 9), event("c", 5), event("d", 1)];
    let recent = EventStore::most_recent(events, 3);
    let ids: Vec<&str> = recent.iter().map(|e| e.id.as_str()).collect();
    assert_eq!(ids, vec!["b", "a", "c"]);
}

#[test]
fn remove_by_id_drops_every_match() {
    let mut events = vec![event("a", 1), event("x", 2), event("b", 3), event("x", 4)];
    assert!(EventStore::remove_by_id(&mut events, "x"));
    let ids: Vec<&str> = events.iter().map(|e| e.id.as_str()).collect();
    assert_eq!(ids, vec!["a", "b"]);
    assert!(!EventStore::remove_by_id(&mut events, "x"));
    assert_eq!(events.len(), 2);
    assert!(EventStore::take_by_id(events, "x").is_none());
    assert_eq!(EventStore::new("data/events.jsonl").path(), "data/events.jsonl");
}

#[test]
fn merging_keeps_ids_unique() {
    let mut events = vec![event("a", 1), event("b", 2)];
    for (id, t) in [("a", 3), ("c", 4), ("b", 5), ("c", 6)] {
        EventStore::merge(&mut events, event(id, t));
    }
    let ids: Vec<&str> = events.iter().map(|e| e.id.as_str()).collect();
    assert_eq!(ids, vec!["a", "b", "c"]);
    let stamps: Vec<u64> = events.iter().map(|e| e.updated_at).collect();
    assert_eq!(stamps, vec![3, 5, 6]);
}
