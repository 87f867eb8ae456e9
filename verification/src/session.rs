//! The typed context an agent session is built from, once the conversation
//! row has been decoded.

use vstd::prelude::*;

verus! {

/// Who and what a conversation is about.
#[derive(Debug, Clone)]
pub struct ConversationContext {
    pub conversation_id: String,
    pub user_id: String,
    /// The user's business roles; they travel in the identity token.
    pub roles: Vec<String>,
    /// The conversation's project; `project_id` of the identity token.
    pub project_id: Option<String>,
    /// The session's agent profile (by name), if any.
    pub profile_id: Option<String>,
    /// The kind of agent backend.
    pub agent_type: String,
    pub source: Option<String>,
}

/// The workspace of a session.
#[derive(Debug, Clone)]
pub struct WorkspaceContext {
    /// Path the runtime uses.
    pub path: String,
    /// Path already stored with the conversation (empty for legacy rows).
    pub stored_path: String,
    /// Whether the user chose the workspace.
    pub is_custom: bool,
}

/// What an agent factory needs to build a session's agent.
#[derive(Debug, Clone)]
pub struct FactoryContext {
    pub conversation_id: String,
    pub user_id: String,
    pub roles: Vec<String>,
    pub project_id: Option<String>,
    pub profile_id: Option<String>,
    pub workspace: String,
    pub is_custom_workspace: bool,
}

impl FactoryContext {
    /// The factory context of a session: the conversation's ids, roles,
    /// project and profile, and the workspace path and whether it is custom.
    pub fn resolve(conversation: &ConversationContext, workspace: &WorkspaceContext) -> (r: FactoryContext)
        ensures
            r.conversation_id == conversation.conversation_id,
            r.user_id == conversation.user_id,
            r.project_id == conversation.project_id,
            r.profile_id == conversation.profile_id,
            r.workspace == workspace.path,
            r.is_custom_workspace == workspace.is_custom,
            r.roles@.len() == conversation.roles@.len(),
            forall|i: int| 0 <= i < r.roles@.len() ==> #[trigger] r.roles@[i] == conversation.roles@[i],
    {
        let mut roles: Vec<String> = Vec::new();
        let mut i: usize = 0;
        while i < conversation.roles.len()
            invariant
                i <= conversation.roles@.len(),
                roles@.len() == i,
                forall|j: int| 0 <= j < i ==> #[trigger] roles@[j] == conversation.roles@[j],
            decreases conversation.roles.len() - i,
        {
            roles.push(conversation.roles[i].clone());
            i += 1;
        }
        FactoryContext {
            conversation_id: conversation.conversation_id.clone(),
            user_id: conversation.user_id.clone(),
            roles,
            project_id: clone_opt(&conversation.project_id),
            profile_id: clone_opt(&conversation.profile_id),
            workspace: workspace.path.clone(),
            is_custom_workspace: workspace.is_custom,
        }
    }
}

fn clone_opt(o: &Option<String>) -> (r: Option<String>)
    ensures
        r == *o,
{
    match o {
        Some(s) => Some(s.clone()),
        None => None,
    }
}

} // verus!
