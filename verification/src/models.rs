//! Rows of the database and the parameters the repositories take.

use vstd::prelude::*;

verus! {

/// Milliseconds since the Unix epoch.
pub type TimestampMs = i64;

/// A project task (or sub-task, when `parent_task_id` is set).
#[derive(Debug, Clone)]
pub struct TaskRow {
    pub id: String,
    pub project_id: String,
    pub parent_task_id: Option<String>,
    pub title: String,
    pub instructions: Option<String>,
    pub assignee_kind: String,
    pub assignee_id: Option<String>,
    pub status: String,
    pub requires_human_review: bool,
    pub produces_artifact: Option<String>,
    pub order_index: i64,
    pub conversation_id: Option<String>,
    pub created_by: String,
    pub created_at: TimestampMs,
    pub updated_at: TimestampMs,
    pub started_at: Option<TimestampMs>,
    pub completed_at: Option<TimestampMs>,
}

/// A project.
#[derive(Debug, Clone)]
pub struct ProjectRow {
    pub id: String,
    pub name: String,
    pub description: Option<String>,
    pub project_type: String,
    pub status: String,
    pub created_by: String,
    pub created_at: TimestampMs,
    pub updated_at: TimestampMs,
}

/// A pipeline template; `definition` is its JSON text.
#[derive(Debug, Clone)]
pub struct PipelineTemplateRow {
    pub id: String,
    pub name: String,
    pub project_type: String,
    pub version: i64,
    pub definition: String,
    pub is_active: bool,
    pub created_at: TimestampMs,
}

/// An entry of `resource_acl`: `principal_id` holds `perm` on a resource.
#[derive(Debug, Clone)]
pub struct ResourceAclRow {
    pub id: String,
    pub resource_type: String,
    pub resource_id: String,
    pub principal_type: String,
    pub principal_id: String,
    pub perm: String,
    pub created_at: TimestampMs,
}

/// A business role of the RBAC catalogue.
#[derive(Debug, Clone)]
pub struct Role {
    pub id: String,
    pub name: String,
    pub label: String,
    pub created_at: TimestampMs,
}

/// A user account.
#[derive(Debug, Clone)]
pub struct User {
    pub id: String,
    pub username: String,
    pub email: Option<String>,
    pub password_hash: String,
    pub avatar_path: Option<String>,
    pub jwt_secret: Option<String>,
    pub created_at: TimestampMs,
    pub updated_at: TimestampMs,
    pub last_login: Option<TimestampMs>,
    pub role: String,
    pub is_active: bool,
    pub display_name: Option<String>,
}

/// The single row of system settings.
#[derive(Debug, Clone)]
pub struct SystemSettings {
    pub id: i64,
    pub language: String,
    pub notification_enabled: bool,
    pub cron_notification_enabled: bool,
    pub command_queue_enabled: bool,
    pub save_upload_to_workspace: bool,
    pub updated_at: TimestampMs,
    pub registration_mode: Option<String>,
    pub registration_domain: Option<String>,
}

/// The registration mode in force: the stored one, `invite_only` when none
/// is stored.
pub open spec fn registration_mode_of(s: SystemSettings) -> Seq<char> {
    match s.registration_mode {
        Some(m) => m@,
        None => "invite_only"@,
    }
}

impl SystemSettings {
    /// The registration mode in force (`invite_only` when unset).
    pub fn effective_registration_mode(&self) -> (r: &str)
        ensures
            r@ == registration_mode_of(*self),
    {
        match &self.registration_mode {
            Some(m) => m.as_str(),
            None => "invite_only",
        }
    }
}

/// An agent profile; `definition` is its PERFIL v1 JSON text.
#[derive(Debug, Clone)]
pub struct AgentProfileRow {
    pub id: String,
    pub name: String,
    pub label: String,
    pub definition: String,
    pub is_active: bool,
    pub created_at: TimestampMs,
    pub updated_at: TimestampMs,
}

/// Parameters of a new agent profile (the definition already validated).
#[derive(Debug, Clone)]
pub struct NewAgentProfile {
    pub name: String,
    pub label: String,
    pub definition: String,
}

/// A partial update of an agent profile.
#[derive(Debug, Clone, Default)]
pub struct AgentProfileUpdate {
    pub label: Option<String>,
    pub definition: Option<String>,
    pub is_active: Option<bool>,
}

/// Parameters of a new project (membership is granted separately).
#[derive(Debug, Clone)]
pub struct NewProject {
    pub name: String,
    pub description: Option<String>,
    pub project_type: String,
    pub created_by: String,
}

/// A partial update of a project; `description: Some(None)` clears it.
#[derive(Debug, Clone, Default)]
pub struct ProjectUpdate {
    pub name: Option<String>,
    pub description: Option<Option<String>>,
    pub status: Option<String>,
}

/// Parameters of a new task (a sub-task when `parent_task_id` is set).
#[derive(Debug, Clone)]
pub struct NewTask {
    pub project_id: String,
    pub parent_task_id: Option<String>,
    pub title: String,
    pub instructions: Option<String>,
    pub assignee_kind: String,
    pub assignee_id: Option<String>,
    pub requires_human_review: bool,
    pub produces_artifact: Option<String>,
    pub order_index: i64,
    pub created_by: String,
    /// Ids of the tasks this one depends on.
    pub depends_on: Vec<String>,
}

/// A partial update of a task's editable fields (never its status).
#[derive(Debug, Clone, Default)]
pub struct TaskUpdate {
    pub title: Option<String>,
    pub instructions: Option<Option<String>>,
    pub assignee_kind: Option<String>,
    pub assignee_id: Option<Option<String>>,
    pub requires_human_review: Option<bool>,
    pub order_index: Option<i64>,
}

/// An entry of a task's handoff log.
#[derive(Debug, Clone)]
pub struct NewHandoff {
    pub task_id: String,
    pub from_status: Option<String>,
    pub to_status: String,
    pub actor: String,
    pub trigger_kind: String,
    pub note: Option<String>,
}

/// A new artifact of a task.
#[derive(Debug, Clone)]
pub struct NewArtifact {
    pub task_id: String,
    pub kind: String,
    pub uri: String,
    pub title: String,
    pub produced_by: String,
}

/// Outcome of revoking a project member (the last owner is never revoked).
#[derive(Debug, Clone, Copy, PartialEq, Eq, Structural)]
pub enum MemberRevoke {
    /// Revoked, or was not a member.
    Revoked,
    /// The member is the last owner; nothing was revoked.
    WouldLeaveNoOwner,
}

/// Outcome of removing a role from a user (the last admin keeps it).
#[derive(Debug, Clone, Copy, PartialEq, Eq, Structural)]
pub enum RoleRemoval {
    /// Removed, or the user did not have it.
    Removed,
    /// Removing `admin` would leave no administrator; nothing changed.
    WouldLeaveNoAdmins,
}

/// SQLite's extended result code of a UNIQUE constraint violation.
pub const SQLITE_CONSTRAINT_UNIQUE: &'static str = "2067";

/// Whether a database error, by its code, is a UNIQUE constraint violation
/// (reported to clients as a conflict).
pub fn is_unique_violation(code: Option<&str>) -> (r: bool)
    ensures
        r == (code matches Some(c) && c@ == SQLITE_CONSTRAINT_UNIQUE@),
{
    match code {
        Some(c) => crate::text::str_eq(c, SQLITE_CONSTRAINT_UNIQUE),
        None => false,
    }
}

} // verus!
