use aionui::task_state::{next_status, TaskAction, TaskStatus};

#[test]
fn legal_transitions() {
    assert_eq!(next_status(TaskStatus::Todo, TaskAction::Start, true), Some(TaskStatus::InProgress));
    assert_eq!(next_status(TaskStatus::InProgress, TaskAction::Submit, true), Some(TaskStatus::InReview));
    assert_eq!(next_status(TaskStatus::InProgress, TaskAction::Submit, false), Some(TaskStatus::Done));
    assert_eq!(next_status(TaskStatus::InReview, TaskAction::Approve, true), Some(TaskStatus::Done));
    assert_eq!(next_status(TaskStatus::InReview, TaskAction::Reject, true), Some(TaskStatus::Rejected));
    assert_eq!(next_status(TaskStatus::Rejected, TaskAction::Reopen, true), Some(TaskStatus::Todo));
    assert_eq!(next_status(TaskStatus::Blocked, TaskAction::Start, true), Some(TaskStatus::InProgress));
}

#[test]
fn illegal_transitions_rejected() {
    assert_eq!(next_status(TaskStatus::Todo, TaskAction::Approve, true), None);
    assert_eq!(next_status(TaskStatus::Todo, TaskAction::Submit, true), None);
    assert_eq!(next_status(TaskStatus::Done, TaskAction::Start, true), None);
    assert_eq!(next_status(TaskStatus::Done, TaskAction::Reject, true), None);
}

#[test]
fn status_roundtrip() {
    for s in ["todo", "in_progress", "in_review", "done", "rejected", "blocked"] {
        assert_eq!(TaskStatus::parse(s).unwrap().as_str(), s);
    }
    assert!(TaskStatus::parse("bogus").is_none());
    assert!(TaskAction::parse("bogus").is_none());
}

#[test]
fn action_names_parse() {
    assert_eq!(TaskAction::parse("start"), Some(TaskAction::Start));
    assert_eq!(TaskAction::parse("submit"), Some(TaskAction::Submit));
    assert_eq!(TaskAction::parse("approve"), Some(TaskAction::Approve));
    assert_eq!(TaskAction::parse("reject"), Some(TaskAction::Reject));
    assert_eq!(TaskAction::parse("reopen"), Some(TaskAction::Reopen));
    assert_eq!(TaskAction::parse("Start"), None);
}

#[test]
fn done_is_terminal_for_every_action() {
    for a in [TaskAction::Start, TaskAction::Submit, TaskAction::Approve, TaskAction::Reject, TaskAction::Reopen] {
        assert_eq!(next_status(TaskStatus::Done, a, true), None);
        assert_eq!(next_status(TaskStatus::Done, a, false), None);
    }
}

#[test]
fn blocked_leaves_only_by_start() {
    assert_eq!(next_status(TaskStatus::Blocked, TaskAction::Submit, true), None);
    assert_eq!(next_status(TaskStatus::Blocked, TaskAction::Approve, false), None);
    assert_eq!(next_status(TaskStatus::Blocked, TaskAction::Reopen, true), None);
}
