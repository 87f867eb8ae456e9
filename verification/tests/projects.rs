use aionui::errors::ApiError;
use aionui::models::{MemberRevoke, ResourceAclRow, TaskRow};
use aionui::projects::{
    add_member_request, check_artifact_request, check_assignee_kind_update, check_demotion, check_dependencies,
    check_parent_task, check_project_status, check_task_request, new_project, new_task_params, plan_transition,
    require_member_perm, require_owner_perm, revoke_result, rollup_handoff, subtasks_all_done, transition_handoff,
    revoke_decision, CreateTaskRequest, TransitionAction, TransitionEvent, TransitionFlow, TransitionPlan,
};
use aionui::task_state::{TaskAction, TaskStatus};

fn bad(m: &str) -> ApiError {
    ApiError::BadRequest(m.to_string())
}

fn member(user: &str, perm: &str) -> ResourceAclRow {
    ResourceAclRow {
        id: format!("acl-{user}"),
        resource_type: "project".to_string(),
        resource_id: "p".to_string(),
        principal_type: "user".to_string(),
        principal_id: user.to_string(),
        perm: perm.to_string(),
        created_at: 0,
    }
}

fn task(status: &str, review: bool) -> TaskRow {
    TaskRow {
        id: "t1".to_string(),
        project_id: "p".to_string(),
        parent_task_id: None,
        title: "T".to_string(),
        instructions: None,
        assignee_kind: "human".to_string(),
        assignee_id: None,
        status: status.to_string(),
        requires_human_review: review,
        produces_artifact: None,
        order_index: 0,
        conversation_id: None,
        created_by: "u".to_string(),
        created_at: 0,
        updated_at: 0,
        started_at: None,
        completed_at: None,
    }
}

#[test]
fn membership_gates() {
    assert_eq!(require_member_perm(Some("read".into())), Ok("read".to_string()));
    assert_eq!(require_member_perm(None), Err(ApiError::Forbidden("Not a member of this project".into())));
    assert_eq!(require_owner_perm(Some("owner".into())), Ok(()));
    assert_eq!(require_owner_perm(Some("write".into())), Err(ApiError::Forbidden("Owner permission required".into())));
    assert_eq!(require_owner_perm(None), Err(ApiError::Forbidden("Not a member of this project".into())));
}

#[test]
fn project_creation_and_status() {
    let p = new_project("  Preventa SPS ", None, None, "u1").unwrap();
    assert_eq!(p.name, "Preventa SPS");
    assert_eq!(p.project_type, "generico");
    assert_eq!(p.created_by, "u1");
    assert_eq!(new_project(" ", None, None, "u1").unwrap_err(), bad("name is required"));
    assert_eq!(new_project("x", None, Some("preventa_mep".into()), "u").unwrap().project_type, "preventa_mep");
    assert_eq!(check_project_status(&Some("archived".into())), Ok(()));
    assert_eq!(check_project_status(&None), Ok(()));
    assert_eq!(check_project_status(&Some("deleted".into())), Err(bad("status must be 'active' or 'archived'")));
}

#[test]
fn add_member_requests() {
    assert_eq!(add_member_request(" u2 ", None), Ok(("u2".to_string(), "read".to_string())));
    assert_eq!(add_member_request("u2", Some("owner".into())), Ok(("u2".to_string(), "owner".to_string())));
    assert_eq!(add_member_request("  ", None), Err(bad("user_id is required")));
    assert_eq!(add_member_request("u2", Some("admin".into())), Err(bad("perm must be 'read', 'write' or 'owner'")));
}

#[test]
fn last_owner_cannot_be_demoted() {
    let members = vec![member("u1", "owner"), member("u2", "read")];
    assert_eq!(check_demotion("u1", "read", &members), Err(bad("Cannot demote the last owner of the project")));
    assert_eq!(check_demotion("u1", "owner", &members), Ok(()));
    assert_eq!(check_demotion("u2", "write", &members), Ok(()));
    let two = vec![member("u1", "owner"), member("u2", "owner")];
    assert_eq!(check_demotion("u1", "read", &two), Ok(()));
    assert_eq!(revoke_result(MemberRevoke::Revoked), Ok(()));
    assert_eq!(revoke_result(MemberRevoke::WouldLeaveNoOwner), Err(bad("Cannot remove the last owner of the project")));
}

#[test]
fn task_requests() {
    assert_eq!(check_task_request("Levantamiento", "agent"), Ok(()));
    assert_eq!(check_task_request("  ", "human"), Err(bad("title is required")));
    assert_eq!(check_task_request("x", "robot"), Err(bad("assignee_kind must be 'human' or 'agent'")));
    assert_eq!(check_parent_task(&None, "p"), Err(bad("parent_task_id not found")));
    assert_eq!(check_parent_task(&Some(task("todo", true)), "p"), Ok(()));
    assert_eq!(check_parent_task(&Some(task("todo", true)), "q"), Err(bad("parent task belongs to another project")));
    assert_eq!(check_assignee_kind_update(&Some("robot".into())), Err(bad("assignee_kind must be 'human' or 'agent'")));
    assert_eq!(check_assignee_kind_update(&None), Ok(()));
    assert_eq!(check_artifact_request("s3://x", " "), Err(bad("uri and title are required")));
    assert_eq!(check_artifact_request("s3://x", "BOM"), Ok(()));
    let req = CreateTaskRequest {
        title: "  BOM  ".into(),
        instructions: None,
        parent_task_id: None,
        assignee_kind: "agent".into(),
        assignee_id: Some("openclaw".into()),
        requires_human_review: true,
        produces_artifact: Some("bom".into()),
        order_index: 4,
        depends_on: vec!["t0".into()],
    };
    let t = new_task_params("p", "u", req);
    assert_eq!(t.title, "BOM");
    assert_eq!(t.project_id, "p");
    assert_eq!(t.order_index, 4);
    assert_eq!(t.depends_on, vec!["t0"]);
}

#[test]
fn transition_plans() {
    let plan = plan_transition(&task("in_progress", true), "submit").unwrap();
    assert_eq!(plan, TransitionPlan { from: TaskStatus::InProgress, to: TaskStatus::InReview, action: TaskAction::Submit });
    assert_eq!(plan_transition(&task("in_progress", false), "submit").unwrap().to, TaskStatus::Done);
    assert_eq!(plan_transition(&task("todo", true), "fly"), Err(bad("invalid action")));
    assert_eq!(plan_transition(&task("weird", true), "start"), Err(ApiError::Internal("corrupt task status".into())));
    assert_eq!(plan_transition(&task("done", true), "start"), Err(bad("illegal transition from 'done' via 'start'")));
    assert_eq!(check_dependencies(TaskAction::Start, false), Err(bad("task dependencies are not all done")));
    assert_eq!(check_dependencies(TaskAction::Start, true), Ok(()));
    assert_eq!(check_dependencies(TaskAction::Submit, false), Ok(()));
}

#[test]
fn handoff_log_entries() {
    let plan = plan_transition(&task("in_review", true), "approve").unwrap();
    let h = transition_handoff("t1", plan, "u9");
    assert_eq!(h.from_status.as_deref(), Some("in_review"));
    assert_eq!(h.to_status, "done");
    assert_eq!(h.trigger_kind, "approval");
    assert_eq!(h.actor, "u9");
    let r = transition_handoff("t1", plan_transition(&task("in_review", true), "reject").unwrap(), "u9");
    assert_eq!(r.trigger_kind, "rejection");
    let m = transition_handoff("t1", plan_transition(&task("todo", true), "start").unwrap(), "u9");
    assert_eq!(m.trigger_kind, "manual");
    let up = rollup_handoff("parent");
    assert_eq!(up.from_status, None);
    assert_eq!(up.note.as_deref(), Some("all subtasks done"));
    assert!(subtasks_all_done(2, 2));
    assert!(!subtasks_all_done(0, 0));
    assert!(!subtasks_all_done(3, 2));
}

fn subtask(status: &str) -> TaskRow {
    TaskRow { parent_task_id: Some("parent".into()), ..task(status, false) }
}

#[test]
fn closing_the_last_subtask_closes_its_parent() {
    let t = subtask("in_progress");
    let plan = plan_transition(&t, "submit").unwrap();
    assert_eq!(plan.to, TaskStatus::Done);
    let (mut flow, a) = TransitionFlow::start(&t, plan, "u9");
    match a {
        TransitionAction::Apply { task_id, status, entry } => {
            assert_eq!(task_id, "t1");
            assert_eq!(status, "done");
            assert_eq!(entry.actor, "u9");
            assert_eq!(entry.trigger_kind, "manual");
        }
        other => panic!("expected the write, got {other:?}"),
    }
    assert!(matches!(flow.step(TransitionEvent::Applied), TransitionAction::RunCascade(id) if id == "t1"));
    assert!(matches!(flow.step(TransitionEvent::CascadeDone), TransitionAction::CountSubtasks(id) if id == "parent"));
    match flow.step(TransitionEvent::Subtasks(3, 3)) {
        TransitionAction::CloseParent { parent_id, entry } => {
            assert_eq!(parent_id, "parent");
            assert_eq!(entry.to_status, "done");
            assert_eq!(entry.note.as_deref(), Some("all subtasks done"));
        }
        other => panic!("expected the roll-up, got {other:?}"),
    }
    assert!(matches!(flow.step(TransitionEvent::ParentClosed), TransitionAction::RunCascade(id) if id == "parent"));
    assert!(matches!(flow.step(TransitionEvent::CascadeDone), TransitionAction::ReadBack(id) if id == "t1"));
}

#[test]
fn open_subtasks_keep_the_parent_open() {
    let t = subtask("in_progress");
    let plan = plan_transition(&t, "submit").unwrap();
    let (mut flow, _) = TransitionFlow::start(&t, plan, "u9");
    flow.step(TransitionEvent::Applied);
    flow.step(TransitionEvent::CascadeDone);
    assert!(matches!(flow.step(TransitionEvent::Subtasks(3, 2)), TransitionAction::ReadBack(_)));
}

#[test]
fn start_waits_for_dependencies() {
    let t = task("todo", true);
    let plan = plan_transition(&t, "start").unwrap();
    let (mut flow, a) = TransitionFlow::start(&t, plan, "u9");
    assert!(matches!(a, TransitionAction::CheckDependencies(id) if id == "t1"));
    match flow.step(TransitionEvent::DependenciesDone(false)) {
        TransitionAction::Fail(e) => assert_eq!(e, bad("task dependencies are not all done")),
        other => panic!("expected a refusal, got {other:?}"),
    }
    let (mut flow, _) = TransitionFlow::start(&t, plan, "u9");
    assert!(matches!(flow.step(TransitionEvent::DependenciesDone(true)), TransitionAction::Apply { .. }));
    // Not a close: no cascade, straight to reading back.
    assert!(matches!(flow.step(TransitionEvent::Applied), TransitionAction::ReadBack(_)));
}

#[test]
fn last_owner_is_never_revoked() {
    assert_eq!(revoke_decision(None, 1), (false, MemberRevoke::Revoked));
    assert_eq!(revoke_decision(Some("member"), 1), (true, MemberRevoke::Revoked));
    assert_eq!(revoke_decision(Some("owner"), 2), (true, MemberRevoke::Revoked));
    assert_eq!(revoke_decision(Some("owner"), 1), (false, MemberRevoke::WouldLeaveNoOwner));
}
