//! The task store gateway: translates each `Action` into exactly one store
//! operation against the SQLite connection and an outcome. Every call into
//! the driver stands behind a trusted wrapper; everything around the calls —
//! which statement each action issues, how rows become tasks, and how
//! outcomes become errors — is verified.
//!
//! Store schema relied on: one table `tasks` with an integer primary key
//! `id` (store-assigned, ascending), a text column `task`, and an integer
//! column `state` holding the stable encoding (pending 1, done 2, dropped 3).

use vstd::prelude::*;
use rusqlite::Connection;
use crate::types::{Action, State, StoreError, Task, state_of_code};
use crate::model::matches_filter;
use crate::render::{render_tasks, rendered};

verus! {

/// `rusqlite::Connection`, the open handle to the SQLite store. Opaque here:
/// the library reads and writes tasks only through the wrappers below.
#[verifier::external_type_specification]
#[verifier::external_body]
pub struct ExConnection(Connection);

/// `rusqlite::Error`, the driver's error type. Opaque; every wrapper result
/// is mapped to a `StoreError` before it reaches a caller.
#[verifier::external_type_specification]
#[verifier::external_body]
pub struct ExRusqliteError(rusqlite::Error);

/// Relies on rusqlite's `Connection::execute`: runs one SQL statement with a
/// single integer parameter and, on success, returns the number of rows the
/// statement changed. The count depends on the store's current contents, so
/// nothing is assumed of the outcome.
#[verifier::external_body]
fn execute_with_id(conn: &Connection, sql: &str, id: u32) -> Result<usize, rusqlite::Error> {
    conn.execute(sql, [id])
}

/// Relies on rusqlite's `Connection::execute`: runs one SQL statement with a
/// single text parameter and, on success, returns the number of rows the
/// statement changed. Nothing is assumed of the outcome.
#[verifier::external_body]
fn execute_with_text(conn: &Connection, sql: &str, text: &str) -> Result<usize, rusqlite::Error> {
    conn.execute(sql, [text])
}

/// Relies on rusqlite's `Connection::prepare`, `Statement::query_map` and
/// `Row::get`: runs a two-column query and hands each result row back as the
/// plain pair (integer id, text), in the order the store returns the rows.
/// The rows depend on the store's contents, so nothing is assumed of them.
#[verifier::external_body]
fn query_id_text(conn: &Connection, sql: &str) -> Result<Vec<(u32, String)>, rusqlite::Error> {
    let mut stmt = conn.prepare(sql)?;
    let rows = stmt.query_map([], |row| Ok((row.get(0)?, row.get(1)?)))?;
    rows.collect()
}

/// Relies on rusqlite's `Connection::prepare`, `Statement::query_map` and
/// `Row::get`: runs a three-column query and hands each result row back as
/// the plain triple (integer id, text, state code), in the order the store
/// returns the rows. Nothing is assumed of them.
#[verifier::external_body]
fn query_id_text_state(conn: &Connection, sql: &str) -> Result<
    Vec<(u32, String, u32)>,
    rusqlite::Error,
> {
    let mut stmt = conn.prepare(sql)?;
    let rows = stmt.query_map([], |row| Ok((row.get(0)?, row.get(1)?, row.get(2)?)))?;
    rows.collect()
}

/// The selection statement a `List(filter)` issues: `All` selects every row
/// with its stored state; a single-state filter selects the id and text of
/// the rows in that state, by the stable state encoding. Every selection
/// orders its rows by ascending id.
pub fn filter_query(filter: State) -> (sql: &'static str)
    ensures
        filter == State::All ==> sql@ == "SELECT id, task, state FROM tasks ORDER BY id;"@,
        filter == State::Pending ==> sql@
            == "SELECT id, task FROM tasks WHERE state=1 ORDER BY id;"@,
        filter == State::Done ==> sql@
            == "SELECT id, task FROM tasks WHERE state=2 ORDER BY id;"@,
        filter == State::Dropped ==> sql@
            == "SELECT id, task FROM tasks WHERE state=3 ORDER BY id;"@,
{
    match filter {
        State::All => "SELECT id, task, state FROM tasks ORDER BY id;",
        State::Pending => "SELECT id, task FROM tasks WHERE state=1 ORDER BY id;",
        State::Done => "SELECT id, task FROM tasks WHERE state=2 ORDER BY id;",
        State::Dropped => "SELECT id, task FROM tasks WHERE state=3 ORDER BY id;",
    }
}

/// The insert statement an `Add(text)` issues: one new row whose text is the
/// statement's single parameter, taken verbatim, with the initial pending
/// state by the stable encoding; the store assigns the id.
pub fn insert_query() -> (sql: &'static str)
    ensures
        sql@ == "INSERT INTO tasks(task, state) VALUES(?1, 1);"@,
{
    "INSERT INTO tasks(task, state) VALUES(?1, 1);"
}

/// The update statement a `Done(id)` issues: move the row bearing the id
/// parameter to the done state (code 2), touching no other row and no other
/// column.
pub fn done_query() -> (sql: &'static str)
    ensures
        sql@ == "UPDATE tasks SET state=2 WHERE id=?1;"@,
{
    "UPDATE tasks SET state=2 WHERE id=?1;"
}

/// The update statement a `Drop(id)` issues: move the row bearing the id
/// parameter to the dropped state (code 3), touching no other row and no
/// other column.
pub fn drop_query() -> (sql: &'static str)
    ensures
        sql@ == "UPDATE tasks SET state=3 WHERE id=?1;"@,
{
    "UPDATE tasks SET state=3 WHERE id=?1;"
}

/// Build the tasks of two-column result rows, whose state is implied by the
/// single-state filter that selected them: ids and texts carried over
/// verbatim, in order.
pub fn tasks_from_rows(rows: &Vec<(u32, String)>, st: State) -> (ts: Vec<Task>)
    ensures
        ts@.len() == rows@.len(),
        forall|i: int|
            0 <= i < rows@.len() ==> {
                &&& (#[trigger] ts@[i]).id == rows@[i].0
                &&& ts@[i].description@ == rows@[i].1@
                &&& ts@[i].state == st
            },
{
    let n = rows.len();
    let mut ts: Vec<Task> = Vec::new();
    let mut i: usize = 0;
    while i < n
        invariant
            n == rows@.len(),
            0 <= i <= n,
            ts@.len() == i,
            forall|k: int|
                0 <= k < i ==> {
                    &&& (#[trigger] ts@[k]).id == rows@[k].0
                    &&& ts@[k].description@ == rows@[k].1@
                    &&& ts@[k].state == st
                },
        decreases n - i,
    {
        let row = &rows[i];
        ts.push(Task { id: row.0, description: row.1.clone(), state: st });
        i = i + 1;
    }
    ts
}

/// Build the tasks of three-column result rows, decoding each stored state
/// code: ids and texts carried over verbatim, in order.
pub fn tasks_from_coded_rows(rows: &Vec<(u32, String, u32)>) -> (ts: Vec<Task>)
    ensures
        ts@.len() == rows@.len(),
        forall|i: int|
            0 <= i < rows@.len() ==> {
                &&& (#[trigger] ts@[i]).id == rows@[i].0
                &&& ts@[i].description@ == rows@[i].1@
                &&& ts@[i].state == state_of_code(rows@[i].2)
            },
{
    let n = rows.len();
    let mut ts: Vec<Task> = Vec::new();
    let mut i: usize = 0;
    while i < n
        invariant
            n == rows@.len(),
            0 <= i <= n,
            ts@.len() == i,
            forall|k: int|
                0 <= k < i ==> {
                    &&& (#[trigger] ts@[k]).id == rows@[k].0
                    &&& ts@[k].description@ == rows@[k].1@
                    &&& ts@[k].state == state_of_code(rows@[k].2)
                },
        decreases n - i,
    {
        let row = &rows[i];
        let st = crate::types::state_from_code(row.2);
        ts.push(Task { id: row.0, description: row.1.clone(), state: st });
        i = i + 1;
    }
    ts
}

/// Read every task with its stored state: the `List(All)` read. Any driver
/// failure surfaces as `StoreUnavailable`.
pub fn get_tasks(conn: &Connection) -> (r: Result<Vec<Task>, StoreError>)
    ensures
        (r matches Err(e) ==> e == StoreError::StoreUnavailable),
        (r matches Ok(ts) ==> forall|i: int|
            0 <= i < ts@.len() ==> (#[trigger] ts@[i]).state != State::All),
{
    match query_id_text_state(conn, filter_query(State::All)) {
        Ok(rows) => Ok(tasks_from_coded_rows(&rows)),
        Err(_) => Err(StoreError::StoreUnavailable),
    }
}

/// Execute a `List(filter)` read: select exactly the matching rows and build
/// their tasks, in store order. Every returned task matches the filter and
/// carries a storable state, never the filter-only `All`. Any driver failure
/// surfaces as `StoreUnavailable`.
pub fn list(conn: &Connection, filter: State) -> (r: Result<Vec<Task>, StoreError>)
    ensures
        (r matches Err(e) ==> e == StoreError::StoreUnavailable),
        (r matches Ok(ts) ==> forall|i: int|
            0 <= i < ts@.len() ==> matches_filter(#[trigger] ts@[i], filter)),
        (r matches Ok(ts) ==> forall|i: int|
            0 <= i < ts@.len() ==> (#[trigger] ts@[i]).state != State::All),
{
    if let State::All = filter {
        get_tasks(conn)
    } else {
        match query_id_text(conn, filter_query(filter)) {
            Ok(rows) => Ok(tasks_from_rows(&rows, filter)),
            Err(_) => Err(StoreError::StoreUnavailable),
        }
    }
}

/// Execute an `Add(text)`: insert one row with the given text, verbatim, and
/// the initial state pending; the store assigns the id. A rejected insert
/// surfaces as `UnableToAddTask`.
pub fn add(conn: &Connection, task: &str) -> (r: Result<(), StoreError>)
    ensures
        (r matches Err(e) ==> e == StoreError::UnableToAddTask),
{
    match execute_with_text(conn, insert_query(), task) {
        Ok(_) => Ok(()),
        Err(_) => Err(StoreError::UnableToAddTask),
    }
}

/// The outcome of a state update that changed `changed` rows: success exactly
/// when at least one row bore the id. A zero-row update means the id named no
/// task, and is the same `InvalidTaskNumber` failure as a rejected write.
pub fn update_outcome(changed: usize) -> (r: Result<(), StoreError>)
    ensures
        r is Ok <==> changed >= 1,
        (r matches Err(e) ==> e == StoreError::InvalidTaskNumber),
{
    if changed >= 1 {
        Ok(())
    } else {
        Err(StoreError::InvalidTaskNumber)
    }
}

/// Execute a `Done(id)`: set the state of the task bearing the id to done.
/// Fails with `InvalidTaskNumber` exactly when no row has the id or the store
/// rejects the write.
pub fn done(conn: &Connection, task_id: u32) -> (r: Result<(), StoreError>)
    ensures
        (r matches Err(e) ==> e == StoreError::InvalidTaskNumber),
{
    match execute_with_id(conn, done_query(), task_id) {
        Ok(changed) => update_outcome(changed),
        Err(_) => Err(StoreError::InvalidTaskNumber),
    }
}

/// Execute a `Drop(id)`: set the state of the task bearing the id to
/// dropped. Fails with `InvalidTaskNumber` exactly when no row has the id or
/// the store rejects the write.
pub fn drop_task(conn: &Connection, task_id: u32) -> (r: Result<(), StoreError>)
    ensures
        (r matches Err(e) ==> e == StoreError::InvalidTaskNumber),
{
    match execute_with_id(conn, drop_query(), task_id) {
        Ok(changed) => update_outcome(changed),
        Err(_) => Err(StoreError::InvalidTaskNumber),
    }
}

/// The fixed usage text the `Help` action produces.
pub open spec fn usage_text() -> Seq<char> {
    "Options
    help: print this message
    list: list all TODO state tasks
    show: same as list
    add \"Task\": add the task
    done [task number]: set the task to done state
    drop [task number]: set the task to dropped state"@
}

/// Produce the usage text.
pub fn help() -> (r: String)
    ensures
        r@ == usage_text(),
{
    String::from_str(
        "Options
    help: print this message
    list: list all TODO state tasks
    show: same as list
    add \"Task\": add the task
    done [task number]: set the task to done state
    drop [task number]: set the task to dropped state",
    )
}

/// Carry one action out: at most one store round-trip, and the lines for the
/// entry point to print. `Help` yields the usage text and never fails,
/// `List` yields one line per selected task, and the three mutations yield
/// nothing on success and exactly their own error kind on failure.
pub fn do_action(conn: &Connection, action: Action) -> (r: Result<Vec<String>, StoreError>)
    ensures
        (action is Help ==> (r matches Ok(lines) && lines@.len() == 1 && lines@[0]@
            == usage_text())),
        (action is List ==> (r matches Err(e) ==> e == StoreError::StoreUnavailable)),
        (action matches Action::List(f) ==> (r matches Ok(lines) ==> exists|ts: Seq<Task>|
            #![trigger ts.len()]
            lines@.len() == ts.len() && forall|i: int|
                0 <= i < ts.len() ==> (#[trigger] lines@[i])@ == rendered(ts[i]) && matches_filter(
                    ts[i],
                    f,
                ))),
        (action is Add ==> (r matches Err(e) ==> e == StoreError::UnableToAddTask) && (
        r matches Ok(lines) ==> lines@.len() == 0)),
        (action is Done ==> (r matches Err(e) ==> e == StoreError::InvalidTaskNumber) && (
        r matches Ok(lines) ==> lines@.len() == 0)),
        (action is Drop ==> (r matches Err(e) ==> e == StoreError::InvalidTaskNumber) && (
        r matches Ok(lines) ==> lines@.len() == 0)),
{
    match action {
        Action::Help => {
            let mut lines: Vec<String> = Vec::new();
            lines.push(help());
            Ok(lines)
        },
        Action::List(f) => {
            match list(conn, f) {
                Ok(tasks) => {
                    let lines = render_tasks(&tasks);
                    proof {
                        let ts = tasks@;
                        assert forall|i: int| 0 <= i < ts.len() implies (#[trigger] lines@[i])@
                            == rendered(ts[i]) && matches_filter(ts[i], f) by {}
                        assert(lines@.len() == ts.len() && forall|i: int|
                            0 <= i < ts.len() ==> (#[trigger] lines@[i])@ == rendered(ts[i])
                                && matches_filter(ts[i], f));
                    }
                    Ok(lines)
                },
                Err(e) => Err(e),
            }
        },
        Action::Add(task) => {
            match crate::gateway::add(conn, task.as_str()) {
                Ok(_) => Ok(Vec::new()),
                Err(e) => Err(e),
            }
        },
        Action::Done(task_id) => {
            match done(conn, task_id) {
                Ok(_) => Ok(Vec::new()),
                Err(e) => Err(e),
            }
        },
        Action::Drop(task_id) => {
            match drop_task(conn, task_id) {
                Ok(_) => Ok(Vec::new()),
                Err(e) => Err(e),
            }
        },
    }
}

} // verus!
