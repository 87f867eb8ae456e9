//! Task state machine: the legal transitions of a project task.
//!
//! Pure logic. Persistence lives with the task store; the dependency cascade
//! lives in `handoff`.

use vstd::prelude::*;

use crate::text::str_eq;

verus! {

/// States of a task.
#[derive(Debug, Clone, Copy, PartialEq, Eq, Structural)]
pub enum TaskStatus {
    Todo,
    InProgress,
    InReview,
    Done,
    Rejected,
    Blocked,
}

/// Actions that drive state transitions.
#[derive(Debug, Clone, Copy, PartialEq, Eq, Structural)]
pub enum TaskAction {
    Start,
    Submit,
    Approve,
    Reject,
    Reopen,
}

/// The wire name of a status.
pub open spec fn status_name(s: TaskStatus) -> Seq<char> {
    match s {
        TaskStatus::Todo => "todo"@,
        TaskStatus::InProgress => "in_progress"@,
        TaskStatus::InReview => "in_review"@,
        TaskStatus::Done => "done"@,
        TaskStatus::Rejected => "rejected"@,
        TaskStatus::Blocked => "blocked"@,
    }
}

/// The status whose wire name is `name`, if any.
pub open spec fn status_from_name(name: Seq<char>) -> Option<TaskStatus> {
    if name == "todo"@ {
        Some(TaskStatus::Todo)
    } else if name == "in_progress"@ {
        Some(TaskStatus::InProgress)
    } else if name == "in_review"@ {
        Some(TaskStatus::InReview)
    } else if name == "done"@ {
        Some(TaskStatus::Done)
    } else if name == "rejected"@ {
        Some(TaskStatus::Rejected)
    } else if name == "blocked"@ {
        Some(TaskStatus::Blocked)
    } else {
        None
    }
}

/// The action whose wire name is `name`, if any.
pub open spec fn action_from_name(name: Seq<char>) -> Option<TaskAction> {
    if name == "start"@ {
        Some(TaskAction::Start)
    } else if name == "submit"@ {
        Some(TaskAction::Submit)
    } else if name == "approve"@ {
        Some(TaskAction::Approve)
    } else if name == "reject"@ {
        Some(TaskAction::Reject)
    } else if name == "reopen"@ {
        Some(TaskAction::Reopen)
    } else {
        None
    }
}

/// The transition table: the state reached by applying `action` in `from`,
/// or `None` when the transition is illegal. With `requires_review`, `submit`
/// goes to review; without it, straight to done.
pub open spec fn transition(from: TaskStatus, action: TaskAction, requires_review: bool) -> Option<TaskStatus> {
    match (from, action) {
        (TaskStatus::Todo, TaskAction::Start) => Some(TaskStatus::InProgress),
        (TaskStatus::Blocked, TaskAction::Start) => Some(TaskStatus::InProgress),
        (TaskStatus::InProgress, TaskAction::Submit) => Some(
            if requires_review {
                TaskStatus::InReview
            } else {
                TaskStatus::Done
            },
        ),
        (TaskStatus::InReview, TaskAction::Approve) => Some(TaskStatus::Done),
        (TaskStatus::InReview, TaskAction::Reject) => Some(TaskStatus::Rejected),
        (TaskStatus::Rejected, TaskAction::Reopen) => Some(TaskStatus::Todo),
        _ => None,
    }
}

impl TaskStatus {
    /// The wire name of this status.
    pub fn as_str(&self) -> (r: &'static str)
        ensures
            r@ == status_name(*self),
    {
        match self {
            TaskStatus::Todo => "todo",
            TaskStatus::InProgress => "in_progress",
            TaskStatus::InReview => "in_review",
            TaskStatus::Done => "done",
            TaskStatus::Rejected => "rejected",
            TaskStatus::Blocked => "blocked",
        }
    }

    /// Parses a wire name; `None` for anything that is not one of the six names.
    pub fn parse(s: &str) -> (r: Option<TaskStatus>)
        ensures
            r == status_from_name(s@),
    {
        if str_eq(s, "todo") {
            Some(TaskStatus::Todo)
        } else if str_eq(s, "in_progress") {
            Some(TaskStatus::InProgress)
        } else if str_eq(s, "in_review") {
            Some(TaskStatus::InReview)
        } else if str_eq(s, "done") {
            Some(TaskStatus::Done)
        } else if str_eq(s, "rejected") {
            Some(TaskStatus::Rejected)
        } else if str_eq(s, "blocked") {
            Some(TaskStatus::Blocked)
        } else {
            None
        }
    }
}

impl TaskAction {
    /// Parses an action name; `None` for anything that is not one of the five names.
    pub fn parse(s: &str) -> (r: Option<TaskAction>)
        ensures
            r == action_from_name(s@),
    {
        if str_eq(s, "start") {
            Some(TaskAction::Start)
        } else if str_eq(s, "submit") {
            Some(TaskAction::Submit)
        } else if str_eq(s, "approve") {
            Some(TaskAction::Approve)
        } else if str_eq(s, "reject") {
            Some(TaskAction::Reject)
        } else if str_eq(s, "reopen") {
            Some(TaskAction::Reopen)
        } else {
            None
        }
    }
}

/// State reached by applying `action` to `from`, or `None` if the transition
/// is illegal. `requires_review` decides whether `submit` goes to review or
/// straight to done.
pub fn next_status(from: TaskStatus, action: TaskAction, requires_review: bool) -> (r: Option<TaskStatus>)
    ensures
        r == transition(from, action, requires_review),
{
    match (from, action) {
        (TaskStatus::Todo, TaskAction::Start) => Some(TaskStatus::InProgress),
        (TaskStatus::Blocked, TaskAction::Start) => Some(TaskStatus::InProgress),
        (TaskStatus::InProgress, TaskAction::Submit) => Some(
            if requires_review {
                TaskStatus::InReview
            } else {
                TaskStatus::Done
            },
        ),
        (TaskStatus::InReview, TaskAction::Approve) => Some(TaskStatus::Done),
        (TaskStatus::InReview, TaskAction::Reject) => Some(TaskStatus::Rejected),
        (TaskStatus::Rejected, TaskAction::Reopen) => Some(TaskStatus::Todo),
        _ => None,
    }
}

proof fn lemma_status_names_distinct()
    ensures
        "todo"@ != "in_progress"@,
        "todo"@ != "in_review"@,
        "todo"@ != "done"@,
        "todo"@ != "rejected"@,
        "todo"@ != "blocked"@,
        "in_progress"@ != "in_review"@,
        "in_progress"@ != "done"@,
        "in_progress"@ != "rejected"@,
        "in_progress"@ != "blocked"@,
        "in_review"@ != "done"@,
        "in_review"@ != "rejected"@,
        "in_review"@ != "blocked"@,
        "done"@ != "rejected"@,
        "done"@ != "blocked"@,
        "rejected"@ != "blocked"@,
{
    reveal_strlit("todo");
    reveal_strlit("in_progress");
    reveal_strlit("in_review");
    reveal_strlit("done");
    reveal_strlit("rejected");
    reveal_strlit("blocked");
    assert("todo"@.len() != "in_progress"@.len());
    assert("todo"@.len() != "in_review"@.len());
    assert("todo"@[0] != "done"@[0]);
    assert("todo"@.len() != "rejected"@.len());
    assert("todo"@.len() != "blocked"@.len());
    assert("in_progress"@.len() != "in_review"@.len());
    assert("in_progress"@.len() != "done"@.len());
    assert("in_progress"@.len() != "rejected"@.len());
    assert("in_progress"@.len() != "blocked"@.len());
    assert("in_review"@.len() != "done"@.len());
    assert("in_review"@.len() != "rejected"@.len());
    assert("in_review"@.len() != "blocked"@.len());
    assert("done"@.len() != "rejected"@.len());
    assert("done"@.len() != "blocked"@.len());
    assert("rejected"@.len() != "blocked"@.len());
}

/// Every status survives a round trip through its wire name:
/// `parse(as_str(s)) == Some(s)`.
pub proof fn status_name_round_trip(s: TaskStatus)
    ensures
        status_from_name(status_name(s)) == Some(s),
{
    lemma_status_names_distinct();
}

/// Distinct statuses have distinct wire names.
pub proof fn status_names_injective(a: TaskStatus, b: TaskStatus)
    requires
        status_name(a) == status_name(b),
    ensures
        a == b,
{
    lemma_status_names_distinct();
}

/// `done` is final: no action leads out of it.
pub proof fn done_is_terminal(action: TaskAction, requires_review: bool)
    ensures
        transition(TaskStatus::Done, action, requires_review) is None,
{
}

/// A task can only reach `done` by an approval in review, or by a submission
/// from progress when no review is required.
pub proof fn done_needs_review_or_no_gate(from: TaskStatus, action: TaskAction, requires_review: bool)
    requires
        transition(from, action, requires_review) == Some(TaskStatus::Done),
    ensures
        (from == TaskStatus::InReview && action == TaskAction::Approve) || (from == TaskStatus::InProgress
            && action == TaskAction::Submit && !requires_review),
{
}

/// Only `start` leaves `blocked`, and it leads to `in_progress`.
pub proof fn blocked_only_leaves_by_start(action: TaskAction, requires_review: bool)
    ensures
        transition(TaskStatus::Blocked, action, requires_review) == (if action == TaskAction::Start {
            Some(TaskStatus::InProgress)
        } else {
            None::<TaskStatus>
        }),
{
}

/// Only a task that is `todo` or `blocked` can be started; a task in any
/// other status (`rejected` among them) refuses `start`.
pub proof fn start_only_from_todo_or_blocked(from: TaskStatus, requires_review: bool)
    ensures
        transition(from, TaskAction::Start, requires_review) is Some <==> (from == TaskStatus::Todo || from
            == TaskStatus::Blocked),
        transition(from, TaskAction::Start, requires_review) is Some ==> transition(
            from,
            TaskAction::Start,
            requires_review,
        ) == Some(TaskStatus::InProgress),
{
}

/// The only way out of `rejected` is `reopen`, back to `todo`.
pub proof fn rejected_only_leaves_by_reopen(action: TaskAction, requires_review: bool)
    ensures
        transition(TaskStatus::Rejected, action, requires_review) is Some ==> action == TaskAction::Reopen,
        transition(TaskStatus::Rejected, TaskAction::Reopen, requires_review) == Some(TaskStatus::Todo),
{
}

/// Each action leaves from exactly one kind of status and leads to one:
/// `start` from `todo` or `blocked` to `in_progress`; `submit` from
/// `in_progress` to `in_review` when review is required, else to `done`;
/// `approve` from `in_review` to `done`; `reject` from `in_review` to
/// `rejected`; `reopen` from `rejected` to `todo`. Every other pair is
/// illegal.
pub proof fn each_action_has_its_source(from: TaskStatus, requires_review: bool)
    ensures
        transition(from, TaskAction::Submit, requires_review) == (if from == TaskStatus::InProgress {
            Some(if requires_review { TaskStatus::InReview } else { TaskStatus::Done })
        } else {
            None::<TaskStatus>
        }),
        transition(from, TaskAction::Approve, requires_review) == (if from == TaskStatus::InReview {
            Some(TaskStatus::Done)
        } else {
            None::<TaskStatus>
        }),
        transition(from, TaskAction::Reject, requires_review) == (if from == TaskStatus::InReview {
            Some(TaskStatus::Rejected)
        } else {
            None::<TaskStatus>
        }),
        transition(from, TaskAction::Reopen, requires_review) == (if from == TaskStatus::Rejected {
            Some(TaskStatus::Todo)
        } else {
            None::<TaskStatus>
        }),
{
}

} // verus!
