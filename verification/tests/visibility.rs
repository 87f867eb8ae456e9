use aionui::auth::CurrentUser;
use aionui::models::{AgentProfileRow, ResourceAclRow};
use aionui::profile_compiler::AssistantDefinitionRow;
use aionui::visibility::{is_member, is_profile_visible_to_user, visible_assistants, visible_profiles};

fn user(id: &str, roles: &[&str]) -> CurrentUser {
    CurrentUser {
        id: id.to_string(),
        username: id.to_string(),
        role: "member".to_string(),
        roles: roles.iter().map(|r| r.to_string()).collect(),
    }
}

fn grant(resource_id: &str, principal: &str) -> ResourceAclRow {
    ResourceAclRow {
        id: format!("acl-{resource_id}-{principal}"),
        resource_type: "agent_profile".to_string(),
        resource_id: resource_id.to_string(),
        principal_type: "user".to_string(),
        principal_id: principal.to_string(),
        perm: "read".to_string(),
        created_at: 0,
    }
}

fn profile(id: &str) -> AgentProfileRow {
    AgentProfileRow {
        id: id.to_string(),
        name: id.to_string(),
        label: id.to_string(),
        definition: String::new(),
        is_active: true,
        created_at: 0,
        updated_at: 0,
    }
}

fn generated(key: &str, profile_id: &str) -> AssistantDefinitionRow {
    AssistantDefinitionRow {
        definition_id: format!("def-{key}"),
        assistant_key: key.to_string(),
        source: "generated".to_string(),
        owner_type: "system".to_string(),
        source_ref: Some(profile_id.to_string()),
        name: key.to_string(),
        description: None,
        agent_backend: "aionrs".to_string(),
        rule_resource_type: "inline".to_string(),
        rule_inline_content: None,
        default_model_mode: "fixed".to_string(),
        default_model_value: None,
        default_skills_mode: "fixed".to_string(),
        default_skill_ids: "[]".to_string(),
        default_mcps_mode: "fixed".to_string(),
        default_mcp_ids: "[]".to_string(),
    }
}

#[test]
fn user_without_grant_does_not_see_generated_assistant() {
    let defs = vec![generated("profile:ingenieria", "p1")];
    let visible = visible_assistants(&defs, &vec![], &user("u1", &[]), &vec!["profile:ingenieria".to_string()]);
    assert_eq!(visible, vec![false]);
}

#[test]
fn user_with_role_grant_sees_generated_assistant() {
    let defs = vec![generated("profile:ingenieria", "p1")];
    let acl = vec![grant("p1", "ingenieria")];
    let visible =
        visible_assistants(&defs, &acl, &user("u1", &["ingenieria"]), &vec!["profile:ingenieria".to_string()]);
    assert_eq!(visible, vec![true]);
}

#[test]
fn admin_sees_generated_assistant_without_explicit_grant() {
    let defs = vec![generated("profile:ingenieria", "p1")];
    let visible = visible_assistants(&defs, &vec![], &user("admin1", &["admin"]), &vec!["profile:ingenieria".to_string()]);
    assert_eq!(visible, vec![true]);
}

#[test]
fn non_generated_assistants_are_never_filtered() {
    let defs = vec![generated("profile:ingenieria", "p1")];
    let items = vec!["builtin-office".to_string(), "custom-123-abcd".to_string()];
    assert_eq!(visible_assistants(&defs, &vec![], &user("u1", &[]), &items), vec![true, true]);
    assert_eq!(visible_assistants(&vec![], &vec![], &user("u1", &[]), &items), vec![true, true]);
}

#[test]
fn profiles_are_listed_by_grant_fail_closed() {
    let active = vec![profile("a"), profile("b"), profile("c")];
    let acl = vec![grant("a", "u1"), grant("c", "comercial"), grant("b", "someone-else")];
    let seen = visible_profiles(&user("u1", &["comercial"]), active.clone(), &acl);
    let ids: Vec<&str> = seen.iter().map(|p| p.id.as_str()).collect();
    assert_eq!(ids, vec!["a", "c"]);
    assert!(visible_profiles(&user("u2", &[]), active.clone(), &acl).is_empty());
    assert_eq!(visible_profiles(&user("root", &["admin"]), active, &acl).len(), 3);
}

#[test]
fn membership_needs_a_user_entry_on_that_resource() {
    let mut row = grant("p1", "u1");
    assert!(is_member(&vec![row.clone()], "agent_profile", "p1", "u1"));
    assert!(!is_member(&vec![row.clone()], "agent_profile", "p2", "u1"));
    assert!(!is_member(&vec![row.clone()], "project", "p1", "u1"));
    row.principal_type = "role".to_string();
    assert!(!is_member(&vec![row], "agent_profile", "p1", "u1"));
    assert!(is_profile_visible_to_user(&vec![grant("p1", "r2")], &user("u", &["r1", "r2"]), "p1"));
}

#[test]
fn later_definitions_of_a_key_win() {
    let defs = vec![generated("k", "p1"), generated("k", "p2")];
    let acl = vec![grant("p1", "u1")];
    assert_eq!(visible_assistants(&defs, &acl, &user("u1", &[]), &vec!["k".to_string()]), vec![false]);
    let acl2 = vec![grant("p2", "u1")];
    assert_eq!(visible_assistants(&defs, &acl2, &user("u1", &[]), &vec!["k".to_string()]), vec![true]);
}
