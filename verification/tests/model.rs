use tasktrack::model::MemStore;
use tasktrack::types::{State, Task};

fn ids(tasks: &[Task]) -> Vec<u32> {
    tasks.iter().map(|t| t.id).collect()
}

#[test]
fn new_store_lists_nothing() {
    let store = MemStore::new();
    assert!(store.list(State::All).is_empty());
    assert!(store.list(State::Pending).is_empty());
}

#[test]
fn added_tasks_are_pending_with_ascending_ids() {
    let mut store = MemStore::new();
    let a = store.add("first".to_string());
    let b = store.add("second".to_string());
    assert_eq!((a, b), (1, 2));
    let all = store.list(State::All);
    assert_eq!(ids(&all), vec![1, 2]);
    assert!(all.iter().all(|t| t.state == State::Pending));
    assert_eq!(all[0].description, "first");
    assert_eq!(all[1].description, "second");
}

#[test]
fn done_twice_leaves_done_both_times() {
    let mut store = MemStore::new();
    let id = store.add("buy milk".to_string());
    assert!(store.set_state(id, State::Done));
    assert_eq!(store.list(State::Done).len(), 1);
    assert_eq!(store.list(State::Done)[0].state, State::Done);
    assert!(store.set_state(id, State::Done));
    assert_eq!(store.list(State::Done).len(), 1);
    assert_eq!(store.list(State::Done)[0].state, State::Done);
}

#[test]
fn drop_after_done_leaves_dropped() {
    let mut store = MemStore::new();
    let id = store.add("buy milk".to_string());
    assert!(store.set_state(id, State::Done));
    assert!(store.set_state(id, State::Dropped));
    assert!(store.list(State::Done).is_empty());
    let dropped = store.list(State::Dropped);
    assert_eq!(dropped.len(), 1);
    assert_eq!(dropped[0].state, State::Dropped);
    assert_eq!(dropped[0].description, "buy milk");
}

#[test]
fn add_then_list_round_trip() {
    let mut store = MemStore::new();
    store.add("other".to_string());
    let id = store.add("buy milk".to_string());
    let pending = store.list(State::Pending);
    assert!(pending
        .iter()
        .any(|t| t.id == id && t.description == "buy milk" && t.state == State::Pending));
    assert!(store.set_state(id, State::Done));
    assert!(store.list(State::Pending).iter().all(|t| t.id != id));
    assert!(store
        .list(State::Done)
        .iter()
        .any(|t| t.id == id && t.description == "buy milk" && t.state == State::Done));
}

#[test]
fn set_state_on_unknown_id_changes_nothing() {
    let mut store = MemStore::new();
    store.add("keep".to_string());
    assert!(!store.set_state(999, State::Done));
    let all = store.list(State::All);
    assert_eq!(all.len(), 1);
    assert_eq!(all[0].state, State::Pending);
}

#[test]
fn list_filters_by_state_and_keeps_order() {
    let mut store = MemStore::new();
    let a = store.add("one".to_string());
    let b = store.add("two".to_string());
    let c = store.add("three".to_string());
    store.set_state(b, State::Done);
    store.set_state(c, State::Dropped);
    assert_eq!(ids(&store.list(State::All)), vec![a, b, c]);
    assert_eq!(ids(&store.list(State::Pending)), vec![a]);
    assert_eq!(ids(&store.list(State::Done)), vec![b]);
    assert_eq!(ids(&store.list(State::Dropped)), vec![c]);
}
