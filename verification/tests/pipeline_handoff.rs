use aionui::handoff::{
    awaits_dependencies, block_handoff, blocking_handoff, unblock_handoff, Cascade, CascadeAction, CascadeEvent, HandoffOutcome,
};
use aionui::models::TaskRow;
use aionui::pipeline::{blocking_order, dependency_links, task_for_spec, PipelineError, TaskSpec};

fn spec(key: &str, kind: &str, agent: Option<&str>, deps: &[&str]) -> TaskSpec {
    TaskSpec {
        key: key.to_string(),
        title: format!("Task {key}"),
        assignee_kind: kind.to_string(),
        agent: agent.map(str::to_string),
        requires_human_review: true,
        produces_artifact: None,
        depends_on: deps.iter().map(|d| d.to_string()).collect(),
    }
}

fn row(status: &str) -> TaskRow {
    TaskRow {
        id: "t".into(),
        project_id: "p".into(),
        parent_task_id: None,
        title: "T".into(),
        instructions: None,
        assignee_kind: "human".into(),
        assignee_id: None,
        status: status.into(),
        requires_human_review: true,
        produces_artifact: None,
        order_index: 0,
        conversation_id: None,
        created_by: "u".into(),
        created_at: 0,
        updated_at: 0,
        started_at: None,
        completed_at: None,
    }
}

#[test]
fn agent_tasks_go_to_their_agent() {
    let s = spec("hvac", "agent", Some("openclaw"), &[]);
    let t = task_for_spec("p1", "u1", 3, &s);
    assert_eq!(t.assignee_id.as_deref(), Some("openclaw"));
    assert_eq!(t.order_index, 3);
    assert_eq!(t.project_id, "p1");
    assert!(t.depends_on.is_empty());
    let h = task_for_spec("p1", "u1", 0, &spec("lev", "human", Some("openclaw"), &[]));
    assert_eq!(h.assignee_id, None);
}

#[test]
fn dependencies_resolve_keys_to_ids() {
    let specs = vec![spec("a", "human", None, &[]), spec("b", "human", None, &["a", "missing"]), spec("c", "agent", None, &["a", "b"])];
    let ids = vec!["t1".to_string(), "t2".to_string(), "t3".to_string()];
    let links = dependency_links(&specs, &ids);
    let got: Vec<(&str, &str)> = links.iter().map(|(a, b)| (a.as_str(), b.as_str())).collect();
    assert_eq!(got, vec![("t2", "t1"), ("t3", "t1"), ("t3", "t2")]);
    assert_eq!(blocking_order(&specs, &ids), vec!["t1", "t2", "t3"]);
}

#[test]
fn duplicate_keys_map_to_the_last_task() {
    let specs = vec![spec("a", "human", None, &[]), spec("a", "human", None, &[]), spec("b", "human", None, &["a"])];
    let ids = vec!["t1".to_string(), "t2".to_string(), "t3".to_string()];
    let links = dependency_links(&specs, &ids);
    assert_eq!(links, vec![("t3".to_string(), "t2".to_string())]);
    assert_eq!(blocking_order(&specs, &ids), vec!["t2", "t2", "t3"]);
}

#[test]
fn pipeline_error_messages() {
    assert_eq!(PipelineError::TemplateNotFound("tpl-x".into()).message(), "template 'tpl-x' not found");
    assert_eq!(PipelineError::InvalidTemplate("bad".into()).message(), "invalid template definition: bad");
}

#[test]
fn cascade_decisions() {
    assert!(awaits_dependencies("blocked"));
    assert!(!awaits_dependencies("todo"));
    let u = unblock_handoff("t9");
    assert_eq!(u.from_status.as_deref(), Some("blocked"));
    assert_eq!(u.to_status, "todo");
    assert_eq!(u.trigger_kind, "dependency_satisfied");
    let b = block_handoff("t9");
    assert_eq!(b.to_status, "blocked");
    assert_eq!(b.note.as_deref(), Some("created with unmet dependencies"));
    assert!(HandoffOutcome::new().unblocked.is_empty());
}

fn task(id: &str, status: &str) -> TaskRow {
    TaskRow { id: id.into(), ..row(status) }
}

fn check_id(a: &CascadeAction) -> Option<String> {
    match a {
        CascadeAction::CheckDependencies(id) => Some(id.clone()),
        _ => None,
    }
}

#[test]
fn cascade_unblocks_dependent_when_dep_completes() {
    let (mut cascade, action) = Cascade::start(vec![task("B", "blocked")]);
    assert_eq!(check_id(&action), Some("B".to_string()));
    match cascade.step(CascadeEvent::DependenciesDone(true)) {
        CascadeAction::Unblock(id, entry) => {
            assert_eq!(id, "B");
            assert_eq!(entry.task_id, "B");
            assert_eq!(entry.from_status.as_deref(), Some("blocked"));
            assert_eq!(entry.to_status, "todo");
            assert_eq!(entry.actor, "system");
            assert_eq!(entry.trigger_kind, "dependency_satisfied");
        }
        other => panic!("expected an unblock, got {other:?}"),
    }
    let next = cascade.step(CascadeEvent::Unblocked(Some(task("B", "todo"))));
    assert!(matches!(next, CascadeAction::Finished));
    let outcome = cascade.finish();
    assert_eq!(outcome.unblocked.len(), 1);
    assert_eq!(outcome.unblocked[0].id, "B");
    assert_eq!(outcome.unblocked[0].status, "todo");
}

#[test]
fn no_cascade_while_other_deps_pending() {
    let (mut cascade, action) = Cascade::start(vec![task("C", "blocked")]);
    assert_eq!(check_id(&action), Some("C".to_string()));
    assert!(matches!(cascade.step(CascadeEvent::DependenciesDone(false)), CascadeAction::Finished));
    assert!(cascade.finish().unblocked.is_empty());
    // The second dependency closes: this time every dependency is done.
    let (mut cascade, _) = Cascade::start(vec![task("C", "blocked")]);
    assert!(matches!(cascade.step(CascadeEvent::DependenciesDone(true)), CascadeAction::Unblock(..)));
    cascade.step(CascadeEvent::Unblocked(Some(task("C", "todo"))));
    let outcome = cascade.finish();
    assert_eq!(outcome.unblocked.len(), 1);
    assert_eq!(outcome.unblocked[0].status, "todo");
}

#[test]
fn cascade_skips_dependents_that_are_not_blocked() {
    let dependents = vec![task("X", "todo"), task("Y", "blocked"), task("Z", "done"), task("W", "blocked")];
    let (mut cascade, action) = Cascade::start(dependents);
    assert_eq!(check_id(&action), Some("Y".to_string()));
    assert!(matches!(cascade.step(CascadeEvent::DependenciesDone(true)), CascadeAction::Unblock(..)));
    let next = cascade.step(CascadeEvent::Unblocked(None));
    assert_eq!(check_id(&next), Some("W".to_string()));
    assert!(matches!(cascade.step(CascadeEvent::DependenciesDone(false)), CascadeAction::Finished));
    assert!(cascade.finish().unblocked.is_empty());
    let (cascade, action) = Cascade::start(vec![task("A", "in_progress")]);
    assert!(matches!(action, CascadeAction::Finished));
    assert!(cascade.finish().unblocked.is_empty());
}

#[test]
fn a_new_task_is_blocked_only_on_unmet_dependencies() {
    assert!(blocking_handoff(true, "t3").is_none());
    let h = blocking_handoff(false, "t3").expect("unmet dependencies block");
    assert_eq!(h.task_id, "t3");
    assert_eq!(h.from_status.as_deref(), Some("todo"));
    assert_eq!(h.to_status, "blocked");
    assert_eq!(h.actor, "system");
}
