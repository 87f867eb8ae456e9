//! The handoff cascade of the supervisor/executor model: when a task closes,
//! its dependents that were blocked and now have every dependency done go
//! back to `todo`; a task created with unmet dependencies starts blocked.
//! Every such move is logged by `system` with trigger `dependency_satisfied`.
//!
//! The cascade is a state machine ([`Cascade`]): it names the next store
//! operation, the driver performs it and reports the answer back.

use vstd::prelude::*;

use crate::models::{NewHandoff, TaskRow};
use crate::text::str_eq;

verus! {

/// Result of processing the close of a task.
#[derive(Debug, Clone)]
pub struct HandoffOutcome {
    /// The tasks this cascade moved from `blocked` to `todo`.
    pub unblocked: Vec<TaskRow>,
}

impl HandoffOutcome {
    /// An outcome that moved nothing.
    pub fn new() -> (r: HandoffOutcome)
        ensures
            r.unblocked@.len() == 0,
    {
        HandoffOutcome { unblocked: Vec::new() }
    }
}

/// Whether a dependent in status `status` is a candidate of the cascade
/// (only blocked tasks are unblocked; their dependencies are then checked).
pub fn awaits_dependencies(status: &str) -> (r: bool)
    ensures
        r == (status@ == "blocked"@),
{
    str_eq(status, "blocked")
}

/// The log entry of a dependent the cascade unblocks (`blocked` → `todo`).
pub fn unblock_handoff(task_id: &str) -> (r: NewHandoff)
    ensures
        r.task_id@ == task_id@,
        r.from_status matches Some(f) && f@ == "blocked"@,
        r.to_status@ == "todo"@,
        r.actor@ == "system"@,
        r.trigger_kind@ == "dependency_satisfied"@,
        r.note is None,
{
    NewHandoff {
        task_id: String::from_str(task_id),
        from_status: Some(String::from_str("blocked")),
        to_status: String::from_str("todo"),
        actor: String::from_str("system"),
        trigger_kind: String::from_str("dependency_satisfied"),
        note: None,
    }
}

/// The log entry of a new task blocked on unmet dependencies (`todo` →
/// `blocked`).
pub fn block_handoff(task_id: &str) -> (r: NewHandoff)
    ensures
        r.task_id@ == task_id@,
        r.from_status matches Some(f) && f@ == "todo"@,
        r.to_status@ == "blocked"@,
        r.actor@ == "system"@,
        r.trigger_kind@ == "dependency_satisfied"@,
        r.note matches Some(n) && n@ == "created with unmet dependencies"@,
{
    NewHandoff {
        task_id: String::from_str(task_id),
        from_status: Some(String::from_str("todo")),
        to_status: String::from_str("blocked"),
        actor: String::from_str("system"),
        trigger_kind: String::from_str("dependency_satisfied"),
        note: Some(String::from_str("created with unmet dependencies")),
    }
}

/// Whether `entry` is the log entry of blocking the new task `id`.
pub open spec fn block_entry(entry: NewHandoff, id: Seq<char>) -> bool {
    &&& entry.task_id@ == id
    &&& entry.from_status matches Some(f) && f@ == "todo"@
    &&& entry.to_status@ == "blocked"@
    &&& entry.actor@ == "system"@
    &&& entry.trigger_kind@ == "dependency_satisfied"@
    &&& entry.note matches Some(n) && n@ == "created with unmet dependencies"@
}

/// What a newly created task whose dependencies are `satisfied` (or not)
/// needs: nothing when they are; otherwise it is set to `blocked` and this
/// log entry is written.
pub fn blocking_handoff(satisfied: bool, task_id: &str) -> (r: Option<NewHandoff>)
    ensures
        satisfied <==> r is None,
        r matches Some(h) ==> block_entry(h, task_id@),
{
    if satisfied {
        None
    } else {
        Some(block_handoff(task_id))
    }
}

/// The index of the first dependent at or after `i` that is blocked (the
/// number of dependents when none is).
pub open spec fn next_blocked(d: Seq<TaskRow>, i: int) -> int
    decreases d.len() - i,
{
    if i < 0 || i >= d.len() {
        d.len() as int
    } else if d[i].status@ == "blocked"@ {
        i
    } else {
        next_blocked(d, i + 1)
    }
}

proof fn lemma_next_blocked(d: Seq<TaskRow>, i: int)
    requires
        0 <= i <= d.len(),
    ensures
        i <= next_blocked(d, i) <= d.len(),
        next_blocked(d, i) < d.len() ==> d[next_blocked(d, i)].status@ == "blocked"@,
        forall|j: int| i <= j < next_blocked(d, i) ==> d[j].status@ != "blocked"@,
    decreases d.len() - i,
{
    if i < d.len() && d[i].status@ != "blocked"@ {
        lemma_next_blocked(d, i + 1);
    }
}

/// What the driver of a cascade does next.
#[derive(Debug, Clone)]
pub enum CascadeAction {
    /// Ask the store whether every dependency of the named task is done.
    CheckDependencies(String),
    /// Move the named task to `todo`, log the entry, then read the task back.
    Unblock(String, NewHandoff),
    /// The cascade is over.
    Finished,
}

/// What the driver reports after an action.
#[derive(Debug, Clone)]
pub enum CascadeEvent {
    /// The answer to `CheckDependencies`.
    DependenciesDone(bool),
    /// The task read back after `Unblock` (`None` when it is gone).
    Unblocked(Option<TaskRow>),
}

/// Where a cascade stands: the dependents of the closed task, the one being
/// handled, whether it is being unblocked, and the tasks unblocked so far.
pub struct CascadeState {
    pub dependents: Seq<TaskRow>,
    pub position: int,
    pub unblocking: bool,
    pub unblocked: Seq<TaskRow>,
}

/// A state a cascade can be in: it handles a blocked dependent, or it is
/// done; it only unblocks a dependent it handles.
pub open spec fn cascade_ok(s: CascadeState) -> bool {
    &&& 0 <= s.position <= s.dependents.len()
    &&& s.position < s.dependents.len() ==> s.dependents[s.position].status@ == "blocked"@
    &&& s.unblocking ==> s.position < s.dependents.len()
}

/// The state after `e` is reported in state `s`: a dependent whose
/// dependencies are all done is unblocked; otherwise, and after it is
/// unblocked (the task read back joins the outcome), the cascade moves on
/// to the next blocked dependent.
pub open spec fn cascade_next(s: CascadeState, e: CascadeEvent) -> CascadeState {
    match e {
        CascadeEvent::DependenciesDone(true) => CascadeState { unblocking: true, ..s },
        CascadeEvent::DependenciesDone(false) => CascadeState {
            position: next_blocked(s.dependents, s.position + 1),
            unblocking: false,
            ..s
        },
        CascadeEvent::Unblocked(t) => CascadeState {
            position: next_blocked(s.dependents, s.position + 1),
            unblocking: false,
            unblocked: match t {
                Some(x) => s.unblocked.push(x),
                None => s.unblocked,
            },
            ..s
        },
    }
}

/// Whether `entry` is the log entry of unblocking the task `id`.
pub open spec fn unblock_entry(entry: NewHandoff, id: Seq<char>) -> bool {
    &&& entry.task_id@ == id
    &&& entry.from_status matches Some(f) && f@ == "blocked"@
    &&& entry.to_status@ == "todo"@
    &&& entry.actor@ == "system"@
    &&& entry.trigger_kind@ == "dependency_satisfied"@
    &&& entry.note is None
}

/// Whether `a` is what a cascade in state `s` asks for.
pub open spec fn cascade_asks(s: CascadeState, a: CascadeAction) -> bool {
    if s.position >= s.dependents.len() {
        a is Finished
    } else if s.unblocking {
        &&& a matches CascadeAction::Unblock(id, entry)
        &&& id@ == s.dependents[s.position].id@
        &&& unblock_entry(entry, id@)
    } else {
        a matches CascadeAction::CheckDependencies(id) && id@ == s.dependents[s.position].id@
    }
}

/// The cascade after a task closes: it walks the closed task's dependents
/// in order; each blocked one has its dependencies checked, and moves to
/// `todo` when they are all done. Dependents in any other status are left
/// alone.
pub struct Cascade {
    dependents: Vec<TaskRow>,
    position: usize,
    unblocking: bool,
    unblocked: Vec<TaskRow>,
}

impl View for Cascade {
    type V = CascadeState;

    closed spec fn view(&self) -> CascadeState {
        CascadeState {
            dependents: self.dependents@,
            position: self.position as int,
            unblocking: self.unblocking,
            unblocked: self.unblocked@,
        }
    }
}

impl Cascade {
    /// The first blocked dependent at or after `from`.
    fn skip_to_blocked(dependents: &Vec<TaskRow>, from: usize) -> (r: usize)
        requires
            from <= dependents@.len(),
        ensures
            r == next_blocked(dependents@, from as int),
    {
        let mut i = from;
        while i < dependents.len()
            invariant
                from <= i <= dependents@.len(),
                next_blocked(dependents@, from as int) == next_blocked(dependents@, i as int),
            decreases dependents.len() - i,
        {
            if awaits_dependencies(dependents[i].status.as_str()) {
                return i;
            }
            i += 1;
        }
        i
    }

    /// The action of the current state.
    fn action(&self) -> (a: CascadeAction)
        requires
            cascade_ok(self@),
        ensures
            cascade_asks(self@, a),
    {
        if self.position >= self.dependents.len() {
            CascadeAction::Finished
        } else if self.unblocking {
            let id = self.dependents[self.position].id.clone();
            let entry = unblock_handoff(id.as_str());
            CascadeAction::Unblock(id, entry)
        } else {
            CascadeAction::CheckDependencies(self.dependents[self.position].id.clone())
        }
    }

    /// Starts the cascade over the dependents of the closed task, at the
    /// first blocked one.
    pub fn start(dependents: Vec<TaskRow>) -> (r: (Cascade, CascadeAction))
        ensures
            r.0@ == (CascadeState {
                dependents: dependents@,
                position: next_blocked(dependents@, 0),
                unblocking: false,
                unblocked: Seq::empty(),
            }),
            cascade_ok(r.0@),
            cascade_asks(r.0@, r.1),
    {
        proof {
            lemma_next_blocked(dependents@, 0);
        }
        let position = Cascade::skip_to_blocked(&dependents, 0);
        let c = Cascade { dependents, position, unblocking: false, unblocked: Vec::new() };
        let a = c.action();
        (c, a)
    }

    /// Takes the answer to the last action and returns the next one. The
    /// event must answer the action asked for: a dependency check while
    /// checking, the task read back while unblocking.
    pub fn step(&mut self, e: CascadeEvent) -> (a: CascadeAction)
        requires
            cascade_ok(old(self)@),
            old(self)@.position < old(self)@.dependents.len(),
            e is DependenciesDone <==> !old(self)@.unblocking,
        ensures
            final(self)@ == cascade_next(old(self)@, e),
            cascade_ok(final(self)@),
            cascade_asks(final(self)@, a),
    {
        proof {
            lemma_next_blocked(self.dependents@, self.position + 1);
        }
        assert(self.position < self.dependents.len());
        match e {
            CascadeEvent::DependenciesDone(true) => {
                self.unblocking = true;
            },
            CascadeEvent::DependenciesDone(false) => {
                self.position = Cascade::skip_to_blocked(&self.dependents, self.position + 1);
            },
            CascadeEvent::Unblocked(t) => {
                match t {
                    Some(x) => self.unblocked.push(x),
                    None => {},
                }
                self.unblocking = false;
                self.position = Cascade::skip_to_blocked(&self.dependents, self.position + 1);
            },
        }
        self.action()
    }

    /// The outcome of a cascade: the tasks it unblocked, as read back, in
    /// the order of the dependents.
    pub fn finish(self) -> (r: HandoffOutcome)
        ensures
            r.unblocked@ == self@.unblocked,
    {
        HandoffOutcome { unblocked: self.unblocked }
    }
}

/// The cascade unblocks a dependent only when it is blocked and the check
/// of its dependencies answered that they are all done; every other
/// answer, and every unblocking, moves it on to a later dependent.
pub proof fn cascade_unblocks_only_checked_blocked_tasks(s: CascadeState, e: CascadeEvent, a: CascadeAction)
    requires
        cascade_ok(s),
        s.position < s.dependents.len(),
        cascade_asks(cascade_next(s, e), a),
        a is Unblock,
        !s.unblocking,
    ensures
        e == CascadeEvent::DependenciesDone(true),
        s.dependents[s.position].status@ == "blocked"@,
        a->Unblock_0@ == s.dependents[s.position].id@,
{
    lemma_next_blocked(s.dependents, s.position + 1);
}

/// Each answer but a `true` check moves the cascade strictly forward, so it
/// ends after at most two answers per dependent.
pub proof fn cascade_moves_forward(s: CascadeState, e: CascadeEvent)
    requires
        cascade_ok(s),
        s.position < s.dependents.len(),
        e != CascadeEvent::DependenciesDone(true),
    ensures
        cascade_next(s, e).position > s.position,
        !cascade_next(s, e).unblocking,
{
    lemma_next_blocked(s.dependents, s.position + 1);
}

/// No blocked dependent is passed over: the cascade starts at the first
/// blocked dependent, and each answer but a `true` check moves it to the
/// next blocked dependent after the current one, or finishes it only when
/// none is left.
pub proof fn cascade_skips_no_blocked_dependent(s: CascadeState, e: CascadeEvent)
    requires
        cascade_ok(s),
        s.position < s.dependents.len(),
        e != CascadeEvent::DependenciesDone(true),
    ensures
        forall|j: int|
            s.position < j < cascade_next(s, e).position ==> (#[trigger] s.dependents[j]).status@ != "blocked"@,
        cascade_next(s, e).position < s.dependents.len() ==> s.dependents[cascade_next(s, e).position].status@
            == "blocked"@,
        cascade_next(s, e).position <= s.dependents.len(),
        forall|j: int| 0 <= j < next_blocked(s.dependents, 0) ==> (#[trigger] s.dependents[j]).status@ != "blocked"@,
{
    lemma_next_blocked(s.dependents, s.position + 1);
    lemma_next_blocked(s.dependents, 0);
}

/// A blocked dependent whose dependencies are all done is unblocked next:
/// after a `true` check the cascade asks to move that very dependent to
/// `todo` with the unblocking log entry.
pub proof fn a_satisfied_check_unblocks_the_dependent(s: CascadeState, a: CascadeAction)
    requires
        cascade_ok(s),
        s.position < s.dependents.len(),
        !s.unblocking,
        cascade_asks(cascade_next(s, CascadeEvent::DependenciesDone(true)), a),
    ensures
        a is Unblock,
        a->Unblock_0@ == s.dependents[s.position].id@,
        a->Unblock_1.task_id@ == s.dependents[s.position].id@,
        a->Unblock_1.to_status@ == "todo"@,
        a->Unblock_1.from_status matches Some(f) && f@ == "blocked"@,
{
}

/// The outcome lists each task read back after unblocking, in order, and
/// nothing else.
pub proof fn unblocked_tasks_are_reported(s: CascadeState, t: Option<TaskRow>)
    ensures
        cascade_next(s, CascadeEvent::Unblocked(t)).unblocked == (match t {
            Some(x) => s.unblocked.push(x),
            None => s.unblocked,
        }),
        cascade_next(s, CascadeEvent::DependenciesDone(true)).unblocked == s.unblocked,
        cascade_next(s, CascadeEvent::DependenciesDone(false)).unblocked == s.unblocked,
{
}

} // verus!
