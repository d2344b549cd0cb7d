use rusqlite::Connection;
use tasktrack::gateway::{
    add, do_action, done, done_query, drop_query, drop_task, filter_query, get_tasks, help,
    insert_query, list,
};
use tasktrack::types::{Action, State, StoreError, Task};

fn fresh_store() -> Connection {
    let conn = Connection::open_in_memory().expect("open in-memory store");
    conn.execute(
        "CREATE TABLE tasks (id INTEGER PRIMARY KEY, task TEXT NOT NULL, state INTEGER NOT NULL DEFAULT 1);",
        [],
    )
    .expect("create schema");
    conn
}

fn lines(tasks: &[Task]) -> Vec<String> {
    tasks.iter().map(|t| t.print()).collect()
}

#[test]
fn end_to_end_scenario() {
    let conn = fresh_store();
    assert_eq!(add(&conn, "write spec"), Ok(()));
    let shown = list(&conn, State::Pending).expect("list");
    assert_eq!(lines(&shown), vec!["1 write spec".to_string()]);
    assert_eq!(done(&conn, 1), Ok(()));
    assert!(list(&conn, State::Pending).expect("list").is_empty());
    let finished = list(&conn, State::Done).expect("list");
    assert_eq!(lines(&finished), vec!["1 write spec".to_string()]);
}

#[test]
fn done_on_an_empty_store_is_invalid_task_number() {
    let conn = fresh_store();
    assert_eq!(done(&conn, 999), Err(StoreError::InvalidTaskNumber));
    assert_eq!(drop_task(&conn, 999), Err(StoreError::InvalidTaskNumber));
}

#[test]
fn done_twice_keeps_the_task_done() {
    let conn = fresh_store();
    assert_eq!(add(&conn, "buy milk"), Ok(()));
    assert_eq!(done(&conn, 1), Ok(()));
    assert_eq!(list(&conn, State::Done).expect("list").len(), 1);
    assert_eq!(done(&conn, 1), Ok(()));
    let finished = list(&conn, State::Done).expect("list");
    assert_eq!(finished.len(), 1);
    assert_eq!(finished[0].state, State::Done);
}

#[test]
fn drop_after_done_wins() {
    let conn = fresh_store();
    assert_eq!(add(&conn, "buy milk"), Ok(()));
    assert_eq!(done(&conn, 1), Ok(()));
    assert_eq!(drop_task(&conn, 1), Ok(()));
    assert!(list(&conn, State::Done).expect("list").is_empty());
    let dropped = list(&conn, State::Dropped).expect("list");
    assert_eq!(dropped.len(), 1);
    assert_eq!(dropped[0].description, "buy milk");
}

#[test]
fn add_then_list_round_trip_in_store() {
    let conn = fresh_store();
    assert_eq!(add(&conn, "other"), Ok(()));
    assert_eq!(add(&conn, "buy milk"), Ok(()));
    let pending = list(&conn, State::Pending).expect("list");
    let id = pending
        .iter()
        .find(|t| t.description == "buy milk")
        .map(|t| t.id)
        .expect("added task listed");
    assert!(pending.iter().all(|t| t.state == State::Pending));
    assert_eq!(done(&conn, id), Ok(()));
    assert!(list(&conn, State::Pending)
        .expect("list")
        .iter()
        .all(|t| t.id != id));
    assert!(list(&conn, State::Done)
        .expect("list")
        .iter()
        .any(|t| t.id == id && t.description == "buy milk" && t.state == State::Done));
}

#[test]
fn list_all_shows_every_state_in_id_order() {
    let conn = fresh_store();
    assert_eq!(add(&conn, "one"), Ok(()));
    assert_eq!(add(&conn, "two"), Ok(()));
    assert_eq!(add(&conn, "three"), Ok(()));
    assert_eq!(done(&conn, 2), Ok(()));
    assert_eq!(drop_task(&conn, 3), Ok(()));
    let all = get_tasks(&conn).expect("select all");
    let states: Vec<State> = all.iter().map(|t| t.state).collect();
    let ids: Vec<u32> = all.iter().map(|t| t.id).collect();
    assert_eq!(ids, vec![1, 2, 3]);
    assert_eq!(states, vec![State::Pending, State::Done, State::Dropped]);
}

#[test]
fn list_without_schema_is_store_unavailable() {
    let conn = Connection::open_in_memory().expect("open in-memory store");
    assert_eq!(list(&conn, State::Pending), Err(StoreError::StoreUnavailable));
    assert_eq!(list(&conn, State::All), Err(StoreError::StoreUnavailable));
}

#[test]
fn rejected_insert_is_unable_to_add_task() {
    let conn = Connection::open_in_memory().expect("open in-memory store");
    conn.execute(
        "CREATE TABLE tasks (id INTEGER PRIMARY KEY, task TEXT NOT NULL CHECK(length(task) > 0), state INTEGER NOT NULL DEFAULT 1);",
        [],
    )
    .expect("create schema");
    assert_eq!(add(&conn, ""), Err(StoreError::UnableToAddTask));
    assert_eq!(add(&conn, "fine"), Ok(()));
}

#[test]
fn filter_queries_select_by_the_stable_encoding_in_id_order() {
    assert_eq!(
        filter_query(State::All),
        "SELECT id, task, state FROM tasks ORDER BY id;"
    );
    assert_eq!(
        filter_query(State::Pending),
        "SELECT id, task FROM tasks WHERE state=1 ORDER BY id;"
    );
    assert_eq!(
        filter_query(State::Done),
        "SELECT id, task FROM tasks WHERE state=2 ORDER BY id;"
    );
    assert_eq!(
        filter_query(State::Dropped),
        "SELECT id, task FROM tasks WHERE state=3 ORDER BY id;"
    );
}

#[test]
fn mutation_queries_use_the_stable_encoding() {
    assert_eq!(insert_query(), "INSERT INTO tasks(task, state) VALUES(?1, 1);");
    assert_eq!(done_query(), "UPDATE tasks SET state=2 WHERE id=?1;");
    assert_eq!(drop_query(), "UPDATE tasks SET state=3 WHERE id=?1;");
}

#[test]
fn do_action_help_yields_the_usage_text() {
    let conn = fresh_store();
    let out = do_action(&conn, Action::Help).expect("help");
    assert_eq!(out, vec![help()]);
    assert!(out[0].starts_with("Options"));
}

#[test]
fn do_action_runs_the_whole_scenario() {
    let conn = fresh_store();
    assert_eq!(
        do_action(&conn, Action::Add("write spec".to_string())),
        Ok(Vec::new())
    );
    assert_eq!(
        do_action(&conn, Action::List(State::Pending)),
        Ok(vec!["1 write spec".to_string()])
    );
    assert_eq!(do_action(&conn, Action::Done(1)), Ok(Vec::new()));
    assert_eq!(do_action(&conn, Action::List(State::Pending)), Ok(Vec::new()));
    assert_eq!(
        do_action(&conn, Action::List(State::Done)),
        Ok(vec!["1 write spec".to_string()])
    );
    assert_eq!(
        do_action(&conn, Action::Done(999)),
        Err(StoreError::InvalidTaskNumber)
    );
    assert_eq!(
        do_action(&conn, Action::Drop(999)),
        Err(StoreError::InvalidTaskNumber)
    );
}

#[test]
fn store_error_messages() {
    assert_eq!(StoreError::StoreUnavailable.message(), "Unable to query the task store.");
    assert_eq!(StoreError::UnableToAddTask.message(), "Unable to add task.");
    assert_eq!(StoreError::InvalidTaskNumber.message(), "Invalid task number");
}
