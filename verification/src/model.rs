//! The task lifecycle model: what each action means as a transformation of
//! the stored sequence of tasks, the laws that hold of those meanings, and an
//! in-memory store with exactly that behavior — the reference model of the
//! gateway's persistence semantics, and a mock store for tests.

use vstd::prelude::*;
use crate::types::{State, Task};

verus! {

/// Whether a listing filter selects a task: `All` selects unconditionally,
/// any other filter selects the tasks in that state.
pub open spec fn matches_filter(t: Task, f: State) -> bool {
    f == State::All || t.state == f
}

/// The tasks a `List(f)` query returns from a store holding `tasks`: the
/// selected ones, in store order.
pub open spec fn visible(tasks: Seq<Task>, f: State) -> Seq<Task>
    decreases tasks.len(),
{
    if tasks.len() == 0 {
        Seq::empty()
    } else {
        let rest = visible(tasks.drop_last(), f);
        if matches_filter(tasks.last(), f) {
            rest.push(tasks.last())
        } else {
            rest
        }
    }
}

/// Selecting from a store extended by one task keeps the selection of the
/// rest and appends the new task exactly when the filter matches it.
pub proof fn lemma_visible_push(tasks: Seq<Task>, x: Task, f: State)
    ensures
        visible(tasks.push(x), f) == if matches_filter(x, f) {
            visible(tasks, f).push(x)
        } else {
            visible(tasks, f)
        },
{
    assert(tasks.push(x).drop_last() =~= tasks);
    assert(tasks.push(x).last() == x);
}

/// A sequence extended by one element holds exactly its old members and the
/// new element.
proof fn lemma_push_contains(s: Seq<Task>, x: Task, t: Task)
    ensures
        s.push(x).contains(t) <==> (s.contains(t) || t == x),
{
    if s.contains(t) {
        let i = choose|i: int| 0 <= i < s.len() && s[i] == t;
        assert(s.push(x)[i] == t);
    }
    if t == x {
        assert(s.push(x)[s.len() as int] == t);
    }
    if s.push(x).contains(t) {
        let i = choose|i: int| 0 <= i < s.push(x).len() && s.push(x)[i] == t;
        if i < s.len() {
            assert(s[i] == t);
        }
    }
}

/// A listing holds exactly the stored tasks its filter selects.
pub proof fn lemma_visible_members(tasks: Seq<Task>, f: State)
    ensures
        forall|t: Task|
            #[trigger] visible(tasks, f).contains(t) <==> (tasks.contains(t) && matches_filter(
                t,
                f,
            )),
    decreases tasks.len(),
{
    if tasks.len() > 0 {
        let rest = tasks.drop_last();
        let x = tasks.last();
        lemma_visible_members(rest, f);
        assert(rest.push(x) =~= tasks);
        assert forall|t: Task|
            #[trigger] visible(tasks, f).contains(t) <==> (tasks.contains(t) && matches_filter(
                t,
                f,
            )) by {
            lemma_push_contains(rest, x, t);
            if matches_filter(x, f) {
                lemma_push_contains(visible(rest, f), x, t);
            }
        }
    }
}

/// The task with its state replaced; id and description never change.
pub open spec fn with_state(t: Task, st: State) -> Task {
    Task { id: t.id, description: t.description, state: st }
}

/// What a `Done(id)`/`Drop(id)` update means: every task bearing `id` moves
/// to state `st`, every other task is untouched.
pub open spec fn set_state_in(tasks: Seq<Task>, id: u32, st: State) -> Seq<Task> {
    tasks.map_values(|t: Task| if t.id == id { with_state(t, st) } else { t })
}

/// A well-formed store: ids are positive and unique, and no stored task
/// carries the filter-only `All` state.
pub open spec fn wf_store(tasks: Seq<Task>) -> bool {
    &&& forall|i: int|
        0 <= i < tasks.len() ==> (#[trigger] tasks[i]).id >= 1 && tasks[i].state != State::All
    &&& forall|i: int, j: int|
        #![trigger tasks[i], tasks[j]]
        0 <= i < j < tasks.len() ==> tasks[i].id != tasks[j].id
}

/// Applying the same transition twice is the same as applying it once, and
/// already after the first application every task bearing the id is in the
/// target state: marking a task `Done` twice leaves it `Done` both times.
pub proof fn lemma_transition_idempotent(tasks: Seq<Task>, id: u32, st: State)
    ensures
        set_state_in(set_state_in(tasks, id, st), id, st) == set_state_in(tasks, id, st),
        forall|i: int|
            0 <= i < tasks.len() && (#[trigger] set_state_in(tasks, id, st)[i]).id == id
                ==> set_state_in(tasks, id, st)[i].state == st,
{
    assert(set_state_in(set_state_in(tasks, id, st), id, st) =~= set_state_in(tasks, id, st));
}

/// Of two transitions on the same id, the last write wins: `Drop(id)` after
/// `Done(id)` leaves the task `Dropped`, exactly as if only the drop had
/// happened.
pub proof fn lemma_last_write_wins(tasks: Seq<Task>, id: u32, first: State, second: State)
    ensures
        set_state_in(set_state_in(tasks, id, first), id, second) == set_state_in(
            tasks,
            id,
            second,
        ),
{
    assert(set_state_in(set_state_in(tasks, id, first), id, second) =~= set_state_in(
        tasks,
        id,
        second,
    ));
}

/// Round trip of a freshly added task: a new pending task appears in the
/// pending listing, description unchanged; once marked done it leaves the
/// pending listing and appears in the done listing.
pub proof fn lemma_add_round_trip(tasks: Seq<Task>, t: Task)
    requires
        t.state == State::Pending,
        forall|i: int| 0 <= i < tasks.len() ==> (#[trigger] tasks[i]).id != t.id,
    ensures
        visible(tasks.push(t), State::Pending).contains(t),
        forall|u: Task|
            visible(set_state_in(tasks.push(t), t.id, State::Done), State::Pending).contains(u)
                ==> u.id != t.id,
        visible(set_state_in(tasks.push(t), t.id, State::Done), State::Done).contains(
            with_state(t, State::Done),
        ),
{
    let s1 = tasks.push(t);
    let s2 = set_state_in(s1, t.id, State::Done);
    lemma_visible_members(s1, State::Pending);
    lemma_visible_members(s2, State::Pending);
    lemma_visible_members(s2, State::Done);

    assert(s1[tasks.len() as int] == t);
    assert(s1.contains(t));

    assert(s2[tasks.len() as int] == with_state(t, State::Done));
    assert(s2.contains(with_state(t, State::Done)));

    assert forall|u: Task| visible(s2, State::Pending).contains(u) implies u.id != t.id by {
        let i = choose|i: int| 0 <= i < s2.len() && s2[i] == u;
        if s1[i].id == t.id {
            assert(u.state == State::Done);
        } else {
            assert(u == s1[i]);
        }
    }
}

/// An in-memory task store with exactly the gateway's action semantics: the
/// reference model of the task lifecycle, usable as a mock store in tests.
pub struct MemStore {
    pub tasks: Vec<Task>,
    pub next_id: u32,
}

impl MemStore {
    /// The store invariant: well-formed contents, and every assigned id is
    /// below the next one to hand out.
    pub open spec fn wf(&self) -> bool {
        &&& wf_store(self.tasks@)
        &&& self.next_id >= 1
        &&& forall|i: int| 0 <= i < self.tasks@.len() ==> (#[trigger] self.tasks@[i]).id
            < self.next_id
    }

    /// An empty store; ids start at 1.
    pub fn new() -> (s: MemStore)
        ensures
            s.wf(),
            s.tasks@ == Seq::<Task>::empty(),
    {
        MemStore { tasks: Vec::new(), next_id: 1 }
    }

    /// Insert one new task with the given text and initial state `Pending`;
    /// the store assigns the id, never reusing one. Returns the assigned id.
    pub fn add(&mut self, description: String) -> (id: u32)
        requires
            old(self).wf(),
            old(self).next_id < u32::MAX,
        ensures
            final(self).wf(),
            id == old(self).next_id,
            final(self).tasks@ == old(self).tasks@.push(
                Task { id: id, description: description, state: State::Pending },
            ),
    {
        let id = self.next_id;
        self.next_id = id + 1;
        self.tasks.push(Task { id, description, state: State::Pending });
        id
    }

    /// Move every task bearing `id` to state `st` (the gateway's `Done` and
    /// `Drop` updates). Reports whether any row changed: false exactly when
    /// no task has the id.
    pub fn set_state(&mut self, id: u32, st: State) -> (changed: bool)
        requires
            old(self).wf(),
            st != State::All,
        ensures
            final(self).wf(),
            final(self).tasks@ == set_state_in(old(self).tasks@, id, st),
            final(self).next_id == old(self).next_id,
            changed <==> exists|i: int|
                0 <= i < old(self).tasks@.len() && (#[trigger] old(self).tasks@[i]).id == id,
    {
        let ghost orig = self.tasks@;
        let n = self.tasks.len();
        let mut out: Vec<Task> = Vec::new();
        let mut changed = false;
        let mut i: usize = 0;
        while i < n
            invariant
                n == orig.len(),
                0 <= i <= n,
                self.tasks@ == orig,
                out@ =~= set_state_in(orig.take(i as int), id, st),
                changed <==> exists|k: int| 0 <= k < i && (#[trigger] orig[k]).id == id,
            decreases n - i,
        {
            let t = &self.tasks[i];
            if t.id == id {
                out.push(Task { id: t.id, description: t.description.clone(), state: st });
                changed = true;
            } else {
                out.push(Task { id: t.id, description: t.description.clone(), state: t.state });
            }
            i = i + 1;
            proof {
                assert(out@ =~= set_state_in(orig.take(i as int), id, st));
            }
        }
        proof {
            assert(orig.take(n as int) =~= orig);
        }
        self.tasks = out;
        changed
    }

    /// The tasks a `List(filter)` returns: exactly those the filter selects,
    /// in store order.
    pub fn list(&self, filter: State) -> (out: Vec<Task>)
        ensures
            out@ == visible(self.tasks@, filter),
    {
        let n = self.tasks.len();
        let mut out: Vec<Task> = Vec::new();
        let mut i: usize = 0;
        while i < n
            invariant
                n == self.tasks@.len(),
                0 <= i <= n,
                out@ == visible(self.tasks@.take(i as int), filter),
            decreases n - i,
        {
            let ghost prev = self.tasks@.take(i as int);
            let ghost elem = self.tasks@[i as int];
            let t = &self.tasks[i];
            let keep = if filter == State::All {
                true
            } else {
                t.state == filter
            };
            proof {
                assert(keep == matches_filter(elem, filter));
                assert(self.tasks@.take(i + 1) =~= prev.push(elem));
                lemma_visible_push(prev, elem, filter);
            }
            if keep {
                out.push(Task { id: t.id, description: t.description.clone(), state: t.state });
                proof {
                    assert(Task { id: t.id, description: t.description, state: t.state } == elem);
                }
            }
            i = i + 1;
        }
        proof {
            assert(self.tasks@.take(n as int) =~= self.tasks@);
        }
        out
    }
}

} // verus!
