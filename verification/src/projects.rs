//! Decisions of the project endpoints: membership gates, request checks, the
//! anti-lockout rule for owners, and the plan of a task transition.
//!
//! Membership is fail-closed: every access to a project needs an entry in
//! `resource_acl`; whoever creates a project is its owner.

use vstd::prelude::*;

use crate::errors::ApiError;
use crate::models::{MemberRevoke, NewHandoff, NewProject, NewTask, ResourceAclRow, TaskRow};
use crate::task_state::{
    action_from_name, next_status, status_from_name, status_name, transition, TaskAction, TaskStatus,
};
use crate::text::{str_eq, trim, trim_spec};

verus! {

/// The result of a membership lookup: the member's `perm`, or 403.
pub fn require_member_perm(perm: Option<String>) -> (r: Result<String, ApiError>)
    ensures
        match perm {
            Some(p) => r == Ok::<String, ApiError>(p),
            None => r matches Err(ApiError::Forbidden(m)) && m@ == "Not a member of this project"@,
        },
{
    match perm {
        Some(p) => Ok(p),
        None => Err(ApiError::Forbidden(String::from_str("Not a member of this project"))),
    }
}

/// The owner gate: 403 unless the member's `perm` is `owner`.
pub fn require_owner_perm(perm: Option<String>) -> (r: Result<(), ApiError>)
    ensures
        match perm {
            Some(p) => if p@ == "owner"@ {
                r is Ok
            } else {
                r matches Err(ApiError::Forbidden(m)) && m@ == "Owner permission required"@
            },
            None => r matches Err(ApiError::Forbidden(m)) && m@ == "Not a member of this project"@,
        },
{
    let p = require_member_perm(perm)?;
    if !str_eq(p.as_str(), "owner") {
        return Err(ApiError::Forbidden(String::from_str("Owner permission required")));
    }
    Ok(())
}

/// The parameters of a new project: the trimmed name (400 when empty), the
/// project type defaulting to `generico`.
pub fn new_project(name: &str, description: Option<String>, project_type: Option<String>, created_by: &str) -> (r:
    Result<NewProject, ApiError>)
    ensures
        trim_spec(name@).len() == 0 ==> (r matches Err(ApiError::BadRequest(m)) && m@ == "name is required"@),
        trim_spec(name@).len() > 0 ==> (r matches Ok(p) && p.name@ == trim_spec(name@) && p.description
            == description && p.created_by@ == created_by@ && p.project_type@ == (match project_type {
            Some(t) => t@,
            None => "generico"@,
        })),
{
    let trimmed = trim(name);
    if trimmed.as_str().is_empty() {
        return Err(ApiError::BadRequest(String::from_str("name is required")));
    }
    let project_type = match project_type {
        Some(t) => t,
        None => String::from_str("generico"),
    };
    Ok(NewProject { name: trimmed, description, project_type, created_by: String::from_str(created_by) })
}

/// A project status update must be `active` or `archived` (when present).
pub fn check_project_status(status: &Option<String>) -> (r: Result<(), ApiError>)
    ensures
        match status {
            Some(s) => if s@ == "active"@ || s@ == "archived"@ {
                r is Ok
            } else {
                r matches Err(ApiError::BadRequest(m)) && m@ == "status must be 'active' or 'archived'"@
            },
            None => r is Ok,
        },
{
    match status {
        Some(s) => if str_eq(s.as_str(), "active") || str_eq(s.as_str(), "archived") {
            Ok(())
        } else {
            Err(ApiError::BadRequest(String::from_str("status must be 'active' or 'archived'")))
        },
        None => Ok(()),
    }
}

/// A project permission.
pub open spec fn is_perm(p: Seq<char>) -> bool {
    p == "read"@ || p == "write"@ || p == "owner"@
}

/// The checked target and permission of an add-member request: the trimmed
/// user id (400 when empty) and the permission, `read` by default (400 when
/// it is not `read`, `write` or `owner`).
pub fn add_member_request(user_id: &str, perm: Option<String>) -> (r: Result<(String, String), ApiError>)
    ensures
        trim_spec(user_id@).len() == 0 ==> (r matches Err(ApiError::BadRequest(m)) && m@
            == "user_id is required"@),
        trim_spec(user_id@).len() > 0 && !is_perm(
            match perm {
                Some(p) => p@,
                None => "read"@,
            },
        ) ==> (r matches Err(ApiError::BadRequest(m)) && m@ == "perm must be 'read', 'write' or 'owner'"@),
        trim_spec(user_id@).len() > 0 && is_perm(
            match perm {
                Some(p) => p@,
                None => "read"@,
            },
        ) ==> (r matches Ok((t, p)) && t@ == trim_spec(user_id@) && p@ == (match perm {
            Some(q) => q@,
            None => "read"@,
        })),
{
    let target = trim(user_id);
    if target.as_str().is_empty() {
        return Err(ApiError::BadRequest(String::from_str("user_id is required")));
    }
    let perm = match perm {
        Some(p) => p,
        None => String::from_str("read"),
    };
    if !(str_eq(perm.as_str(), "read") || str_eq(perm.as_str(), "write") || str_eq(perm.as_str(), "owner")) {
        return Err(ApiError::BadRequest(String::from_str("perm must be 'read', 'write' or 'owner'")));
    }
    Ok((target, perm))
}

/// Whether `row` makes a user an owner.
pub open spec fn is_user_owner(row: ResourceAclRow) -> bool {
    row.principal_type@ == "user"@ && row.perm@ == "owner"@
}

/// The number of user owners among `rows`.
pub open spec fn owner_count(rows: Seq<ResourceAclRow>) -> nat
    decreases rows.len(),
{
    if rows.len() == 0 {
        0
    } else {
        owner_count(rows.drop_last()) + if is_user_owner(rows.last()) {
            1nat
        } else {
            0nat
        }
    }
}

/// Whether `target` is a user owner among `rows`.
pub open spec fn is_owner_in(rows: Seq<ResourceAclRow>, target: Seq<char>) -> bool {
    exists|i: int| 0 <= i < rows.len() && is_user_owner(rows[i]) && #[trigger] rows[i].principal_id@ == target
}

/// The anti-lockout rule of an add-member request: granting `perm` to
/// `target` may not demote the project's last owner.
pub open spec fn demotes_last_owner(rows: Seq<ResourceAclRow>, target: Seq<char>, perm: Seq<char>) -> bool {
    perm != "owner"@ && is_owner_in(rows, target) && owner_count(rows) <= 1
}

/// Checks the anti-lockout rule against the project's members: 400 when the
/// grant would demote its last owner.
pub fn check_demotion(target: &str, perm: &str, members: &Vec<ResourceAclRow>) -> (r: Result<(), ApiError>)
    ensures
        demotes_last_owner(members@, target@, perm@) ==> (r matches Err(ApiError::BadRequest(m)) && m@
            == "Cannot demote the last owner of the project"@),
        !demotes_last_owner(members@, target@, perm@) ==> r is Ok,
{
    if str_eq(perm, "owner") {
        return Ok(());
    }
    let mut owners: usize = 0;
    let mut target_is_owner = false;
    let mut i: usize = 0;
    while i < members.len()
        invariant
            i <= members@.len(),
            owners == owner_count(members@.take(i as int)),
            owners <= i,
            target_is_owner == (exists|j: int|
                0 <= j < i && is_user_owner(members@[j]) && #[trigger] members@[j].principal_id@ == target@),
        decreases members.len() - i,
    {
        let row = &members[i];
        let owner_row = str_eq(row.principal_type.as_str(), "user") && str_eq(row.perm.as_str(), "owner");
        assert(members@.take(i + 1).drop_last() =~= members@.take(i as int));
        if owner_row {
            owners += 1;
            if str_eq(row.principal_id.as_str(), target) {
                target_is_owner = true;
            }
        }
        i += 1;
    }
    assert(members@.take(members@.len() as int) =~= members@);
    if target_is_owner && owners <= 1 {
        return Err(ApiError::BadRequest(String::from_str("Cannot demote the last owner of the project")));
    }
    Ok(())
}

/// The answer to an atomic member revocation.
pub fn revoke_result(outcome: MemberRevoke) -> (r: Result<(), ApiError>)
    ensures
        outcome == MemberRevoke::Revoked ==> r is Ok,
        outcome == MemberRevoke::WouldLeaveNoOwner ==> (r matches Err(ApiError::BadRequest(m)) && m@
            == "Cannot remove the last owner of the project"@),
{
    match outcome {
        MemberRevoke::Revoked => Ok(()),
        MemberRevoke::WouldLeaveNoOwner => Err(
            ApiError::BadRequest(String::from_str("Cannot remove the last owner of the project")),
        ),
    }
}

// ---------------------------------------------------------------------------
// The anti-lockout law
// ---------------------------------------------------------------------------

/// `rows` after granting `fresh.perm` to `target`: the target's user entries
/// take the new `perm`; a target without one gets the new entry `fresh`.
pub open spec fn apply_grant(rows: Seq<ResourceAclRow>, target: Seq<char>, fresh: ResourceAclRow) -> Seq<ResourceAclRow> {
    let updated = rows.map_values(
        |row: ResourceAclRow|
            if row.principal_type@ == "user"@ && row.principal_id@ == target {
                ResourceAclRow { perm: fresh.perm, ..row }
            } else {
                row
            },
    );
    if exists|i: int| 0 <= i < rows.len() && rows[i].principal_type@ == "user"@ && #[trigger] rows[i].principal_id@ == target {
        updated
    } else {
        updated.push(fresh)
    }
}

/// Whether no two user entries of `rows` name the same principal (the
/// table's uniqueness constraint).
pub open spec fn users_unique(rows: Seq<ResourceAclRow>) -> bool {
    forall|i: int, j: int|
        0 <= i < j < rows.len() && rows[i].principal_type@ == "user"@ && rows[j].principal_type@ == "user"@ ==> #[trigger] rows[i].principal_id@ != #[trigger] rows[j].principal_id@
}

proof fn lemma_owner_count_bound(rows: Seq<ResourceAclRow>, i: int)
    requires
        0 <= i < rows.len(),
        is_user_owner(rows[i]),
    ensures
        owner_count(rows) >= 1,
    decreases rows.len(),
{
    if i < rows.len() - 1 {
        lemma_owner_count_bound(rows.drop_last(), i);
    }
}

/// Owners that stay owners: every user owner other than `target` keeps
/// being an owner after the grant, so the count after it is at least the
/// count of owners that are not `target`.
proof fn lemma_other_owner_survives(
    rows: Seq<ResourceAclRow>,
    target: Seq<char>,
    fresh: ResourceAclRow,
    i: int,
)
    requires
        0 <= i < rows.len(),
        is_user_owner(rows[i]),
        rows[i].principal_id@ != target,
    ensures
        owner_count(apply_grant(rows, target, fresh)) >= 1,
{
    let after = apply_grant(rows, target, fresh);
    assert(after[i] == rows[i]);
    lemma_owner_count_bound(after, i);
}

/// Two owners that are different users.
proof fn lemma_two_owners(rows: Seq<ResourceAclRow>) -> (ij: (int, int))
    requires
        owner_count(rows) >= 2,
    ensures
        0 <= ij.0 < ij.1 < rows.len(),
        is_user_owner(rows[ij.0]),
        is_user_owner(rows[ij.1]),
    decreases rows.len(),
{
    let prefix = rows.drop_last();
    if is_user_owner(rows.last()) {
        if owner_count(prefix) >= 2 {
            lemma_two_owners(prefix)
        } else {
            let k = lemma_some_owner(prefix);
            (k, rows.len() - 1)
        }
    } else {
        lemma_two_owners(prefix)
    }
}

proof fn lemma_some_owner(rows: Seq<ResourceAclRow>) -> (k: int)
    requires
        owner_count(rows) >= 1,
    ensures
        0 <= k < rows.len(),
        is_user_owner(rows[k]),
    decreases rows.len(),
{
    if is_user_owner(rows.last()) {
        rows.len() - 1
    } else {
        lemma_some_owner(rows.drop_last())
    }
}

/// Anti-lockout: when the demotion check lets a grant through on a project
/// that has an owner, the project still has an owner after the grant.
pub proof fn grant_keeps_an_owner(
    rows: Seq<ResourceAclRow>,
    target: Seq<char>,
    perm: Seq<char>,
    fresh: ResourceAclRow,
)
    requires
        users_unique(rows),
        owner_count(rows) >= 1,
        !demotes_last_owner(rows, target, perm),
        fresh.principal_type@ == "user"@,
        fresh.principal_id@ == target,
        fresh.perm@ == perm,
    ensures
        owner_count(apply_grant(rows, target, fresh)) >= 1,
{
    let after = apply_grant(rows, target, fresh);
    if perm == "owner"@ {
        if exists|i: int| 0 <= i < rows.len() && rows[i].principal_type@ == "user"@ && #[trigger] rows[i].principal_id@ == target {
            let i = choose|i: int| 0 <= i < rows.len() && rows[i].principal_type@ == "user"@ && #[trigger] rows[i].principal_id@ == target;
            assert(is_user_owner(after[i]));
            lemma_owner_count_bound(after, i);
        } else {
            assert(after.last() == fresh);
            lemma_owner_count_bound(after, after.len() - 1);
        }
    } else if !is_owner_in(rows, target) {
        let k = lemma_some_owner(rows);
        assert(rows[k].principal_id@ != target);
        lemma_other_owner_survives(rows, target, fresh, k);
    } else {
        let (a, b) = lemma_two_owners(rows);
        assert(rows[a].principal_id@ != rows[b].principal_id@);
        if rows[a].principal_id@ != target {
            lemma_other_owner_survives(rows, target, fresh, a);
        } else {
            lemma_other_owner_survives(rows, target, fresh, b);
        }
    }
}

// ---------------------------------------------------------------------------
// Tasks
// ---------------------------------------------------------------------------

/// The body of a create-task request, with its defaults applied (assignee
/// kind `human`, review required, order 0, no dependencies).
#[derive(Debug, Clone)]
pub struct CreateTaskRequest {
    pub title: String,
    pub instructions: Option<String>,
    pub parent_task_id: Option<String>,
    pub assignee_kind: String,
    pub assignee_id: Option<String>,
    pub requires_human_review: bool,
    pub produces_artifact: Option<String>,
    pub order_index: i64,
    pub depends_on: Vec<String>,
}

/// Who a task is assigned to.
pub open spec fn is_assignee_kind(k: Seq<char>) -> bool {
    k == "human"@ || k == "agent"@
}

/// Checks a create-task request before any lookup: a non-blank title and a
/// known assignee kind.
pub fn check_task_request(title: &str, assignee_kind: &str) -> (r: Result<(), ApiError>)
    ensures
        trim_spec(title@).len() == 0 ==> (r matches Err(ApiError::BadRequest(m)) && m@ == "title is required"@),
        trim_spec(title@).len() > 0 && !is_assignee_kind(assignee_kind@) ==> (r matches Err(
            ApiError::BadRequest(m),
        ) && m@ == "assignee_kind must be 'human' or 'agent'"@),
        trim_spec(title@).len() > 0 && is_assignee_kind(assignee_kind@) ==> r is Ok,
{
    if trim(title).as_str().is_empty() {
        return Err(ApiError::BadRequest(String::from_str("title is required")));
    }
    if !(str_eq(assignee_kind, "human") || str_eq(assignee_kind, "agent")) {
        return Err(ApiError::BadRequest(String::from_str("assignee_kind must be 'human' or 'agent'")));
    }
    Ok(())
}

/// A sub-task's parent must exist and belong to the same project.
pub fn check_parent_task(parent: &Option<TaskRow>, project_id: &str) -> (r: Result<(), ApiError>)
    ensures
        match parent {
            None => r matches Err(ApiError::BadRequest(m)) && m@ == "parent_task_id not found"@,
            Some(p) => if p.project_id@ == project_id@ {
                r is Ok
            } else {
                r matches Err(ApiError::BadRequest(m)) && m@ == "parent task belongs to another project"@
            },
        },
{
    match parent {
        None => Err(ApiError::BadRequest(String::from_str("parent_task_id not found"))),
        Some(p) => if str_eq(p.project_id.as_str(), project_id) {
            Ok(())
        } else {
            Err(ApiError::BadRequest(String::from_str("parent task belongs to another project")))
        },
    }
}

/// The parameters of the task a checked request creates in `project_id`:
/// the request's fields, with the title trimmed.
pub fn new_task_params(project_id: &str, created_by: &str, req: CreateTaskRequest) -> (r: NewTask)
    ensures
        r.project_id@ == project_id@,
        r.created_by@ == created_by@,
        r.title@ == trim_spec(req.title@),
        r.parent_task_id == req.parent_task_id,
        r.instructions == req.instructions,
        r.assignee_kind == req.assignee_kind,
        r.assignee_id == req.assignee_id,
        r.requires_human_review == req.requires_human_review,
        r.produces_artifact == req.produces_artifact,
        r.order_index == req.order_index,
        r.depends_on == req.depends_on,
{
    let title = trim(req.title.as_str());
    NewTask {
        project_id: String::from_str(project_id),
        parent_task_id: req.parent_task_id,
        title,
        instructions: req.instructions,
        assignee_kind: req.assignee_kind,
        assignee_id: req.assignee_id,
        requires_human_review: req.requires_human_review,
        produces_artifact: req.produces_artifact,
        order_index: req.order_index,
        created_by: String::from_str(created_by),
        depends_on: req.depends_on,
    }
}

/// A task update may only set a known assignee kind.
pub fn check_assignee_kind_update(kind: &Option<String>) -> (r: Result<(), ApiError>)
    ensures
        match kind {
            Some(k) => if is_assignee_kind(k@) {
                r is Ok
            } else {
                r matches Err(ApiError::BadRequest(m)) && m@ == "assignee_kind must be 'human' or 'agent'"@
            },
            None => r is Ok,
        },
{
    match kind {
        Some(k) => if str_eq(k.as_str(), "human") || str_eq(k.as_str(), "agent") {
            Ok(())
        } else {
            Err(ApiError::BadRequest(String::from_str("assignee_kind must be 'human' or 'agent'")))
        },
        None => Ok(()),
    }
}

/// An artifact needs a non-blank URI and title.
pub fn check_artifact_request(uri: &str, title: &str) -> (r: Result<(), ApiError>)
    ensures
        trim_spec(uri@).len() == 0 || trim_spec(title@).len() == 0 ==> (r matches Err(ApiError::BadRequest(m))
            && m@ == "uri and title are required"@),
        trim_spec(uri@).len() > 0 && trim_spec(title@).len() > 0 ==> r is Ok,
{
    if trim(uri).as_str().is_empty() || trim(title).as_str().is_empty() {
        return Err(ApiError::BadRequest(String::from_str("uri and title are required")));
    }
    Ok(())
}

/// A legal transition of a task.
#[derive(Debug, Clone, Copy, PartialEq, Eq, Structural)]
pub struct TransitionPlan {
    pub from: TaskStatus,
    pub to: TaskStatus,
    pub action: TaskAction,
}

/// The message of an illegal transition.
pub open spec fn illegal_transition_message(status: Seq<char>, action: Seq<char>) -> Seq<char> {
    "illegal transition from '"@ + status + "' via '"@ + action + "'"@
}

/// Plans the transition of `task` requested by the action name `action`:
/// 400 for an unknown action, 500 for a stored status that is not one of the
/// six, 400 for a transition the state machine refuses.
pub fn plan_transition(task: &TaskRow, action: &str) -> (r: Result<TransitionPlan, ApiError>)
    ensures
        action_from_name(action@) is None ==> (r matches Err(ApiError::BadRequest(m)) && m@ == "invalid action"@),
        action_from_name(action@) is Some && status_from_name(task.status@) is None ==> (r matches Err(
            ApiError::Internal(m),
        ) && m@ == "corrupt task status"@),
        action_from_name(action@) is Some && status_from_name(task.status@) is Some ==> match transition(
            status_from_name(task.status@).unwrap(),
            action_from_name(action@).unwrap(),
            task.requires_human_review,
        ) {
            Some(t) => r == Ok::<TransitionPlan, ApiError>(
                TransitionPlan {
                    from: status_from_name(task.status@).unwrap(),
                    to: t,
                    action: action_from_name(action@).unwrap(),
                },
            ),
            None => r matches Err(ApiError::BadRequest(m)) && m@ == illegal_transition_message(
                task.status@,
                action@,
            ),
        },
{
    let a = match TaskAction::parse(action) {
        Some(a) => a,
        None => {
            return Err(ApiError::BadRequest(String::from_str("invalid action")));
        },
    };
    let from = match TaskStatus::parse(task.status.as_str()) {
        Some(f) => f,
        None => {
            return Err(ApiError::Internal(String::from_str("corrupt task status")));
        },
    };
    match next_status(from, a, task.requires_human_review) {
        Some(to) => Ok(TransitionPlan { from, to, action: a }),
        None => {
            let mut m = String::from_str("illegal transition from '");
            m.append(task.status.as_str());
            m.append("' via '");
            m.append(action);
            m.append("'");
            Err(ApiError::BadRequest(m))
        },
    }
}

/// `start` needs every dependency of the task done.
pub fn check_dependencies(action: TaskAction, dependencies_done: bool) -> (r: Result<(), ApiError>)
    ensures
        action == TaskAction::Start && !dependencies_done ==> (r matches Err(ApiError::BadRequest(m)) && m@
            == "task dependencies are not all done"@),
        !(action == TaskAction::Start && !dependencies_done) ==> r is Ok,
{
    if action == TaskAction::Start && !dependencies_done {
        return Err(ApiError::BadRequest(String::from_str("task dependencies are not all done")));
    }
    Ok(())
}

/// The trigger a manual transition is logged with.
pub open spec fn trigger_kind_of(a: TaskAction) -> Seq<char> {
    match a {
        TaskAction::Approve => "approval"@,
        TaskAction::Reject => "rejection"@,
        _ => "manual"@,
    }
}

/// The handoff-log entry of a transition performed by `actor`.
pub fn transition_handoff(task_id: &str, plan: TransitionPlan, actor: &str) -> (r: NewHandoff)
    ensures
        r.task_id@ == task_id@,
        r.from_status matches Some(f) && f@ == status_name(plan.from),
        r.to_status@ == status_name(plan.to),
        r.actor@ == actor@,
        r.trigger_kind@ == trigger_kind_of(plan.action),
        r.note is None,
{
    let trigger = match plan.action {
        TaskAction::Approve => "approval",
        TaskAction::Reject => "rejection",
        _ => "manual",
    };
    NewHandoff {
        task_id: String::from_str(task_id),
        from_status: Some(String::from_str(plan.from.as_str())),
        to_status: String::from_str(plan.to.as_str()),
        actor: String::from_str(actor),
        trigger_kind: String::from_str(trigger),
        note: None,
    }
}

/// Whether a parent closes by roll-up: it has sub-tasks and all are done.
pub fn subtasks_all_done(total: i64, done: i64) -> (r: bool)
    ensures
        r == (total > 0 && total == done),
{
    total > 0 && total == done
}

/// The handoff-log entry of a parent closed by roll-up.
pub fn rollup_handoff(parent_id: &str) -> (r: NewHandoff)
    ensures
        r.task_id@ == parent_id@,
        r.from_status is None,
        r.to_status@ == "done"@,
        r.actor@ == "system"@,
        r.trigger_kind@ == "dependency_satisfied"@,
        r.note matches Some(n) && n@ == "all subtasks done"@,
{
    NewHandoff {
        task_id: String::from_str(parent_id),
        from_status: None,
        to_status: String::from_str("done"),
        actor: String::from_str("system"),
        trigger_kind: String::from_str("dependency_satisfied"),
        note: Some(String::from_str("all subtasks done")),
    }
}

// ---------------------------------------------------------------------------
// Performing a transition
// ---------------------------------------------------------------------------

/// Where the performance of a planned transition stands.
#[derive(Debug, Clone, Copy, PartialEq, Eq, Structural)]
pub enum TransitionStage {
    /// Waiting for whether every dependency is done (`start` only).
    CheckingDependencies,
    /// Waiting for the new status to be stored and logged.
    Applying,
    /// Waiting for the cascade of the closed task.
    TaskCascade,
    /// Waiting for the parent's sub-task counts.
    RollingUp,
    /// Waiting for the parent to be stored as done and logged.
    ClosingParent,
    /// Waiting for the cascade of the closed parent.
    ParentCascade,
    /// Waiting for the task as stored afterwards.
    ReadingBack,
    /// Refused: `start` with a dependency not done. Nothing was written.
    Refused,
}

/// What the driver of a transition does next.
#[derive(Debug, Clone)]
pub enum TransitionAction {
    /// Ask whether every dependency of the named task is done.
    CheckDependencies(String),
    /// Store the named task's new status and log the entry.
    Apply { task_id: String, status: String, entry: NewHandoff },
    /// Run the handoff cascade of the named closed task.
    RunCascade(String),
    /// Count the sub-tasks of the named parent, and those done.
    CountSubtasks(String),
    /// Store the named parent as `done` and log the entry.
    CloseParent { parent_id: String, entry: NewHandoff },
    /// Read the named task back: it is the answer of the transition.
    ReadBack(String),
    /// Answer with this error; nothing is written.
    Fail(ApiError),
}

/// What the driver reports after an action.
#[derive(Debug, Clone, Copy, PartialEq, Eq, Structural)]
pub enum TransitionEvent {
    /// The answer to `CheckDependencies`.
    DependenciesDone(bool),
    /// The status was stored and logged.
    Applied,
    /// The cascade ran.
    CascadeDone,
    /// The parent's sub-tasks: `(total, done)`.
    Subtasks(i64, i64),
    /// The parent was stored as done and logged.
    ParentClosed,
}

/// Where a transition stands, as the contracts speak of it.
pub struct TransitionState {
    pub task_id: Seq<char>,
    pub parent_id: Option<Seq<char>>,
    pub plan: TransitionPlan,
    pub actor: Seq<char>,
    pub stage: TransitionStage,
}

/// The stage a transition starts in: the dependency check for `start`,
/// the write otherwise.
pub open spec fn first_stage(plan: TransitionPlan) -> TransitionStage {
    if plan.action == TaskAction::Start {
        TransitionStage::CheckingDependencies
    } else {
        TransitionStage::Applying
    }
}

/// Whether `e` answers what stage `st` waits for.
pub open spec fn answers(st: TransitionStage, e: TransitionEvent) -> bool {
    match st {
        TransitionStage::CheckingDependencies => e is DependenciesDone,
        TransitionStage::Applying => e is Applied,
        TransitionStage::TaskCascade => e is CascadeDone,
        TransitionStage::RollingUp => e is Subtasks,
        TransitionStage::ClosingParent => e is ParentClosed,
        TransitionStage::ParentCascade => e is CascadeDone,
        _ => false,
    }
}

/// The stage after `e`: a refused dependency check ends the transition; a
/// task that reaches `done` has its cascade run, then, when it is a
/// sub-task, its parent's sub-tasks are counted; a parent whose sub-tasks
/// are all done is closed and has its own cascade run; the task is then
/// read back.
pub open spec fn transition_next(s: TransitionState, e: TransitionEvent) -> TransitionStage {
    match (s.stage, e) {
        (TransitionStage::CheckingDependencies, TransitionEvent::DependenciesDone(done)) => if done {
            TransitionStage::Applying
        } else {
            TransitionStage::Refused
        },
        (TransitionStage::Applying, _) => if s.plan.to == TaskStatus::Done {
            TransitionStage::TaskCascade
        } else {
            TransitionStage::ReadingBack
        },
        (TransitionStage::TaskCascade, _) => if s.parent_id is Some {
            TransitionStage::RollingUp
        } else {
            TransitionStage::ReadingBack
        },
        (TransitionStage::RollingUp, TransitionEvent::Subtasks(total, done)) => if total > 0 && total == done {
            TransitionStage::ClosingParent
        } else {
            TransitionStage::ReadingBack
        },
        (TransitionStage::ClosingParent, _) => TransitionStage::ParentCascade,
        _ => TransitionStage::ReadingBack,
    }
}

/// Whether `entry` is the roll-up entry closing `parent_id`.
pub open spec fn rollup_entry(entry: NewHandoff, parent_id: Seq<char>) -> bool {
    &&& entry.task_id@ == parent_id
    &&& entry.from_status is None
    &&& entry.to_status@ == "done"@
    &&& entry.actor@ == "system"@
    &&& entry.trigger_kind@ == "dependency_satisfied"@
    &&& entry.note matches Some(n) && n@ == "all subtasks done"@
}

/// Whether `entry` logs the planned transition of `task_id` by `actor`.
pub open spec fn transition_entry(entry: NewHandoff, task_id: Seq<char>, plan: TransitionPlan, actor: Seq<char>) -> bool {
    &&& entry.task_id@ == task_id
    &&& entry.from_status matches Some(f) && f@ == status_name(plan.from)
    &&& entry.to_status@ == status_name(plan.to)
    &&& entry.actor@ == actor
    &&& entry.trigger_kind@ == trigger_kind_of(plan.action)
    &&& entry.note is None
}

/// Whether `a` is what a transition in state `s` asks for.
pub open spec fn transition_asks(s: TransitionState, a: TransitionAction) -> bool {
    match s.stage {
        TransitionStage::CheckingDependencies => a matches TransitionAction::CheckDependencies(id) && id@
            == s.task_id,
        TransitionStage::Applying => {
            &&& a matches TransitionAction::Apply { task_id, status, entry }
            &&& task_id@ == s.task_id
            &&& status@ == status_name(s.plan.to)
            &&& transition_entry(entry, s.task_id, s.plan, s.actor)
        },
        TransitionStage::TaskCascade => a matches TransitionAction::RunCascade(id) && id@ == s.task_id,
        TransitionStage::RollingUp => a matches TransitionAction::CountSubtasks(id) && s.parent_id == Some(id@),
        TransitionStage::ClosingParent => {
            &&& a matches TransitionAction::CloseParent { parent_id, entry }
            &&& s.parent_id == Some(parent_id@)
            &&& rollup_entry(entry, parent_id@)
        },
        TransitionStage::ParentCascade => a matches TransitionAction::RunCascade(id) && s.parent_id == Some(id@),
        TransitionStage::ReadingBack => a matches TransitionAction::ReadBack(id) && id@ == s.task_id,
        TransitionStage::Refused => a matches TransitionAction::Fail(ApiError::BadRequest(m)) && m@
            == "task dependencies are not all done"@,
    }
}

/// The performance of a planned task transition, step by step.
pub struct TransitionFlow {
    task_id: String,
    parent_id: Option<String>,
    plan: TransitionPlan,
    actor: String,
    stage: TransitionStage,
}

impl View for TransitionFlow {
    type V = TransitionState;

    closed spec fn view(&self) -> TransitionState {
        TransitionState {
            task_id: self.task_id@,
            parent_id: match self.parent_id {
                Some(p) => Some(p@),
                None => None,
            },
            plan: self.plan,
            actor: self.actor@,
            stage: self.stage,
        }
    }
}

impl TransitionFlow {
    /// The action of the current stage.
    fn action(&self) -> (a: TransitionAction)
        requires
            self@.stage is ClosingParent || self@.stage is RollingUp || self@.stage is ParentCascade
                ==> self@.parent_id is Some,
        ensures
            transition_asks(self@, a),
    {
        match self.stage {
            TransitionStage::CheckingDependencies => TransitionAction::CheckDependencies(self.task_id.clone()),
            TransitionStage::Applying => TransitionAction::Apply {
                task_id: self.task_id.clone(),
                status: String::from_str(self.plan.to.as_str()),
                entry: transition_handoff(self.task_id.as_str(), self.plan, self.actor.as_str()),
            },
            TransitionStage::TaskCascade => TransitionAction::RunCascade(self.task_id.clone()),
            TransitionStage::RollingUp => {
                let p = self.parent_id.clone().unwrap();
                TransitionAction::CountSubtasks(p)
            },
            TransitionStage::ClosingParent => {
                let p = self.parent_id.clone().unwrap();
                let entry = rollup_handoff(p.as_str());
                TransitionAction::CloseParent { parent_id: p, entry }
            },
            TransitionStage::ParentCascade => TransitionAction::RunCascade(self.parent_id.clone().unwrap()),
            TransitionStage::ReadingBack => TransitionAction::ReadBack(self.task_id.clone()),
            TransitionStage::Refused => TransitionAction::Fail(
                ApiError::BadRequest(String::from_str("task dependencies are not all done")),
            ),
        }
    }

    /// Starts performing `plan` (from [`plan_transition`]) on `task`, by
    /// `actor`.
    pub fn start(task: &TaskRow, plan: TransitionPlan, actor: &str) -> (r: (TransitionFlow, TransitionAction))
        ensures
            r.0@.task_id == task.id@,
            r.0@.parent_id == (match task.parent_task_id {
                Some(p) => Some(p@),
                None => None::<Seq<char>>,
            }),
            r.0@.plan == plan,
            r.0@.actor == actor@,
            r.0@.stage == first_stage(plan),
            transition_asks(r.0@, r.1),
    {
        let stage = if plan.action == TaskAction::Start {
            TransitionStage::CheckingDependencies
        } else {
            TransitionStage::Applying
        };
        let flow = TransitionFlow {
            task_id: task.id.clone(),
            parent_id: task.parent_task_id.clone(),
            plan,
            actor: String::from_str(actor),
            stage,
        };
        let a = flow.action();
        (flow, a)
    }

    /// Takes the answer to the last action and returns the next one.
    pub fn step(&mut self, e: TransitionEvent) -> (a: TransitionAction)
        requires
            answers(old(self)@.stage, e),
            old(self)@.stage is RollingUp || old(self)@.stage is ClosingParent || old(self)@.stage is ParentCascade
                ==> old(self)@.parent_id is Some,
        ensures
            final(self)@ == (TransitionState { stage: transition_next(old(self)@, e), ..old(self)@ }),
            transition_asks(final(self)@, a),
    {
        let next = match (self.stage, e) {
            (TransitionStage::CheckingDependencies, TransitionEvent::DependenciesDone(done)) => match check_dependencies(
                TaskAction::Start,
                done,
            ) {
                Ok(()) => TransitionStage::Applying,
                Err(_) => TransitionStage::Refused,
            },
            (TransitionStage::Applying, _) => if self.plan.to == TaskStatus::Done {
                TransitionStage::TaskCascade
            } else {
                TransitionStage::ReadingBack
            },
            (TransitionStage::TaskCascade, _) => if self.parent_id.is_some() {
                TransitionStage::RollingUp
            } else {
                TransitionStage::ReadingBack
            },
            (TransitionStage::RollingUp, TransitionEvent::Subtasks(total, done)) => if subtasks_all_done(
                total,
                done,
            ) {
                TransitionStage::ClosingParent
            } else {
                TransitionStage::ReadingBack
            },
            (TransitionStage::ClosingParent, _) => TransitionStage::ParentCascade,
            _ => TransitionStage::ReadingBack,
        };
        self.stage = next;
        self.action()
    }
}

/// Closing the last open sub-task closes its parent: when the counts of a
/// closed sub-task's parent show every sub-task done, the next step stores
/// the parent as `done` with the roll-up entry, and then runs the parent's
/// own cascade.
pub proof fn closing_the_last_subtask_closes_the_parent(s: TransitionState, total: i64, done: i64, a: TransitionAction)
    requires
        s.stage == TransitionStage::RollingUp,
        total > 0,
        total == done,
        transition_asks(
            TransitionState { stage: transition_next(s, TransitionEvent::Subtasks(total, done)), ..s },
            a,
        ),
    ensures
        a matches TransitionAction::CloseParent { parent_id, entry } && s.parent_id == Some(parent_id@)
            && rollup_entry(entry, parent_id@),
        transition_next(
            TransitionState { stage: TransitionStage::ClosingParent, ..s },
            TransitionEvent::ParentClosed,
        ) == TransitionStage::ParentCascade,
{
}

/// Nothing is written for a refused `start`, and only a transition to
/// `done` runs a cascade: after the write, a transition to any other status
/// goes straight to reading the task back.
pub proof fn only_closing_cascades(s: TransitionState)
    requires
        s.stage == TransitionStage::Applying,
        s.plan.to != TaskStatus::Done,
    ensures
        transition_next(s, TransitionEvent::Applied) == TransitionStage::ReadingBack,
        transition_next(
            TransitionState { stage: TransitionStage::CheckingDependencies, ..s },
            TransitionEvent::DependenciesDone(false),
        ) == TransitionStage::Refused,
{
}

// ---------------------------------------------------------------------------
// Revoking a member
// ---------------------------------------------------------------------------

/// What revoking a member does, given the member's `perm` (`None` when not
/// a member) and the number of user owners of the project: whether the
/// member's entry is deleted, and the outcome. Only the last owner is kept.
pub open spec fn revoke_spec(perm: Option<Seq<char>>, owners: u64) -> (bool, MemberRevoke) {
    match perm {
        None => (false, MemberRevoke::Revoked),
        Some(p) => if p != "owner"@ || owners > 1 {
            (true, MemberRevoke::Revoked)
        } else {
            (false, MemberRevoke::WouldLeaveNoOwner)
        },
    }
}

/// The revocation of a member with `perm` from a project with `owners`
/// user owners: delete the entry unless it is the last owner's.
pub fn revoke_decision(perm: Option<&str>, owners: u64) -> (r: (bool, MemberRevoke))
    ensures
        r == revoke_spec(
            match perm {
                Some(p) => Some(p@),
                None => None,
            },
            owners,
        ),
{
    match perm {
        None => (false, MemberRevoke::Revoked),
        Some(p) => if !str_eq(p, "owner") || owners > 1 {
            (true, MemberRevoke::Revoked)
        } else {
            (false, MemberRevoke::WouldLeaveNoOwner)
        },
    }
}

/// A revocation never leaves a project that has an owner without one.
pub proof fn revoking_keeps_an_owner(perm: Option<Seq<char>>, owners: u64)
    requires
        owners >= 1,
    ensures
        ({
            let (deleted, _) = revoke_spec(perm, owners);
            owners - (if deleted && perm == Some("owner"@) { 1int } else { 0int }) >= 1
        }),
{
}

/// Closing a task always runs its own cascade, whether or not it has a
/// parent: after the write of a transition to `done`, the next action runs
/// the cascade of that task.
pub proof fn closing_runs_the_task_cascade(s: TransitionState, e: TransitionEvent, a: TransitionAction)
    requires
        s.stage == TransitionStage::Applying,
        s.plan.to == TaskStatus::Done,
        transition_asks(TransitionState { stage: transition_next(s, e), ..s }, a),
    ensures
        a matches TransitionAction::RunCascade(id) && id@ == s.task_id,
{
}

/// A `start` asks first whether every dependency is done, and writes only
/// on a `true` answer; every other action writes at once. The write stores
/// the planned status of the task and logs it.
pub proof fn only_start_waits_for_dependencies(s: TransitionState, a: TransitionAction, b: TransitionAction)
    requires
        s.stage == first_stage(s.plan),
        transition_asks(s, a),
        s.stage == TransitionStage::CheckingDependencies ==> transition_asks(
            TransitionState { stage: transition_next(s, TransitionEvent::DependenciesDone(true)), ..s },
            b,
        ),
    ensures
        s.plan.action == TaskAction::Start ==> (a matches TransitionAction::CheckDependencies(id) && id@ == s.task_id),
        s.plan.action == TaskAction::Start ==> (b matches TransitionAction::Apply { task_id, status, entry }
            && task_id@ == s.task_id && status@ == status_name(s.plan.to)),
        s.plan.action != TaskAction::Start ==> (a matches TransitionAction::Apply { task_id, status, entry }
            && task_id@ == s.task_id && status@ == status_name(s.plan.to)),
{
}

/// After a closed task's cascade, a sub-task has its parent's sub-tasks
/// counted, and a task without a parent is read back; a parent with a
/// sub-task not done (or none at all) is left as it is.
pub proof fn only_a_finished_family_closes_the_parent(s: TransitionState, total: i64, done: i64, a: TransitionAction, b: TransitionAction)
    requires
        s.stage == TransitionStage::TaskCascade,
        transition_asks(TransitionState { stage: transition_next(s, TransitionEvent::CascadeDone), ..s }, a),
        transition_asks(
            TransitionState {
                stage: transition_next(
                    TransitionState { stage: TransitionStage::RollingUp, ..s },
                    TransitionEvent::Subtasks(total, done),
                ),
                ..s
            },
            b,
        ),
    ensures
        s.parent_id is Some ==> (a matches TransitionAction::CountSubtasks(id) && s.parent_id == Some(id@)),
        s.parent_id is None ==> (a matches TransitionAction::ReadBack(id) && id@ == s.task_id),
        !(total > 0 && total == done) ==> (b matches TransitionAction::ReadBack(id) && id@ == s.task_id),
{
}

} // verus!
