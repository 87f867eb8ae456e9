use aionui::config::stored_jwt_secret;
use aionui::auth::{
    admin_panel_gate, current_user_for, ensure_known_role, ensure_user_exists, local_user, require_admin_user,
    role_removal_decision, role_removal_result, role_to_assign, CurrentUser,
};
use aionui::errors::ApiError;
use aionui::models::{Role, RoleRemoval, SystemSettings, User};
use aionui::usage::{
    active_service_token, check_ingest_engine, extract_bearer, generate_raw_service_token, hash_service_token,
    ingest_token_hash, plan_ingest, service_token_name, window_start, IngestPlan, ServiceTokenRow,
};

fn member(roles: &[&str]) -> CurrentUser {
    CurrentUser {
        id: "user_1".into(),
        username: "member_user".into(),
        role: "member".into(),
        roles: roles.iter().map(|r| r.to_string()).collect(),
    }
}

fn account(active: bool) -> User {
    User {
        id: "u1".into(),
        username: "ada".into(),
        email: None,
        password_hash: "h".into(),
        avatar_path: None,
        jwt_secret: None,
        created_at: 0,
        updated_at: 0,
        last_login: None,
        role: "member".into(),
        is_active: active,
        display_name: None,
    }
}

#[test]
fn local_user_is_the_system_admin() {
    let u = local_user();
    assert_eq!(u.id, "system_default_user");
    assert_eq!(u.username, "system_default_user");
    assert_eq!(u.role, "admin");
    assert!(u.is_admin());
}

#[test]
fn admin_guards() {
    assert_eq!(require_admin_user(Some(&member(&[]))), Err(ApiError::Forbidden("Admin access required".into())));
    assert_eq!(require_admin_user(Some(&local_user())), Ok(()));
    assert!(matches!(require_admin_user(None), Err(ApiError::Internal(_))));
    assert!(member(&["admin"]).is_admin());
    assert_eq!(admin_panel_gate(true, None), Ok(()));
    assert_eq!(admin_panel_gate(false, Some(&member(&["admin"]))), Ok(()));
    assert_eq!(admin_panel_gate(false, Some(&member(&["gerencia"]))), Err(ApiError::Forbidden("Admin role required".into())));
    assert_eq!(admin_panel_gate(false, None), Err(ApiError::Forbidden("Admin role required".into())));
}

#[test]
fn authenticated_accounts() {
    let u = current_user_for(Some(account(true)), vec!["tecnica".into()]).unwrap();
    assert_eq!(u.id, "u1");
    assert_eq!(u.roles, vec!["tecnica"]);
    assert_eq!(
        current_user_for(Some(account(false)), vec![]).unwrap_err(),
        ApiError::Forbidden("Account is deactivated".into())
    );
    assert_eq!(
        current_user_for(None, vec![]).unwrap_err(),
        ApiError::Unauthorized("Invalid authentication subject".into())
    );
}

#[test]
fn role_management() {
    assert_eq!(role_to_assign(" gerencia "), Ok("gerencia".to_string()));
    assert_eq!(role_to_assign("  "), Err(ApiError::BadRequest("role must not be empty".into())));
    let catalogue = vec![Role { id: "gerencia".into(), name: "gerencia".into(), label: "Gerencia".into(), created_at: 0 }];
    assert_eq!(ensure_known_role("gerencia", &catalogue), Ok(()));
    assert_eq!(ensure_known_role("ventas", &catalogue), Err(ApiError::BadRequest("Unknown role 'ventas'".into())));
    assert_eq!(ensure_user_exists("u9", false), Err(ApiError::NotFound("User 'u9' not found".into())));
    assert_eq!(ensure_user_exists("u9", true), Ok(()));
    assert_eq!(role_removal_result(RoleRemoval::Removed), Ok(()));
    assert!(matches!(role_removal_result(RoleRemoval::WouldLeaveNoAdmins), Err(ApiError::Conflict(_))));
}

#[test]
fn registration_mode_defaults_to_invite_only() {
    let mut s = SystemSettings {
        id: 1,
        language: "es".into(),
        notification_enabled: true,
        cron_notification_enabled: true,
        command_queue_enabled: false,
        save_upload_to_workspace: false,
        updated_at: 0,
        registration_mode: None,
        registration_domain: None,
    };
    assert_eq!(s.effective_registration_mode(), "invite_only");
    s.registration_mode = Some("open".into());
    assert_eq!(s.effective_registration_mode(), "open");
}

#[test]
fn service_tokens_are_hashed_with_sha256_hex() {
    assert_eq!(hash_service_token("tok"), "1a7674eb4ee78df7e1ac439a93c3fa8e3c945784d4dec9fd8e3011738b2f1d62");
    let raw = generate_raw_service_token().unwrap();
    assert_eq!(raw.len(), 64);
    assert!(raw.chars().all(|c| c.is_ascii_hexdigit() && !c.is_ascii_uppercase()));
}

#[test]
fn bearer_extraction() {
    assert_eq!(extract_bearer(Some("Bearer abc ")), Some("abc".to_string()));
    assert_eq!(extract_bearer(Some("Bearer    ")), None);
    assert_eq!(extract_bearer(Some("Basic abc")), None);
    assert_eq!(extract_bearer(Some("bearer abc")), None);
    assert_eq!(extract_bearer(None), None);
}

#[test]
fn usage_window_and_engine() {
    assert_eq!(window_start(Some(5), 10_000_000_000), 5);
    assert_eq!(window_start(None, 10_000_000_000), 10_000_000_000 - 2_592_000_000);
    assert_eq!(window_start(None, 1_000), 0);
    assert_eq!(check_ingest_engine(" "), Err(ApiError::BadRequest("engine must not be empty".into())));
    assert_eq!(check_ingest_engine("hermes"), Ok(()));
}

#[test]
fn unique_violation_code_detected() {
    assert!(aionui::models::is_unique_violation(Some("2067")));
}

#[test]
fn non_unique_violation_code_rejected() {
    assert!(!aionui::models::is_unique_violation(Some("1555")));
    assert!(!aionui::models::is_unique_violation(None));
}

#[test]
fn stored_jwt_secret_ignores_empty() {
    let mut u = account(true);
    assert_eq!(stored_jwt_secret(&Some(u.clone())), None);
    u.jwt_secret = Some(String::new());
    assert_eq!(stored_jwt_secret(&Some(u.clone())), None);
    u.jwt_secret = Some("s3cret".into());
    assert_eq!(stored_jwt_secret(&Some(u)), Some("s3cret".to_string()));
    assert_eq!(stored_jwt_secret(&None), None);
}

#[test]
fn ingest_needs_a_bearer_token() {
    assert_eq!(ingest_token_hash(None), Err(ApiError::Unauthorized("service token required".into())));
    assert_eq!(ingest_token_hash(Some("Basic abc")), Err(ApiError::Unauthorized("service token required".into())));
    assert_eq!(ingest_token_hash(Some("Bearer   ")), Err(ApiError::Unauthorized("service token required".into())));
    assert_eq!(ingest_token_hash(Some("Bearer  tok ")), Ok(hash_service_token("tok")));
}

#[test]
fn ingest_needs_an_active_token() {
    let row = ServiceTokenRow {
        id: "svctok_1".into(),
        name: "preventa".into(),
        token_hash: hash_service_token("tok"),
        is_active: true,
        created_at: 1,
    };
    assert_eq!(active_service_token(Some(row.clone())).map(|t| t.id), Ok("svctok_1".to_string()));
    assert_eq!(
        active_service_token(None).map(|t| t.id),
        Err(ApiError::Unauthorized("invalid or inactive service token".into()))
    );
}

#[test]
fn service_token_names_are_trimmed() {
    assert_eq!(service_token_name("  hermes "), Ok("hermes".to_string()));
    assert_eq!(service_token_name("  "), Err(ApiError::BadRequest("name must not be empty".into())));
}

#[test]
fn last_admin_keeps_the_role() {
    assert_eq!(role_removal_decision("gerencia", false, 0), (true, RoleRemoval::Removed));
    assert_eq!(role_removal_decision("admin", false, 1), (false, RoleRemoval::Removed));
    assert_eq!(role_removal_decision("admin", true, 2), (true, RoleRemoval::Removed));
    assert_eq!(role_removal_decision("admin", true, 1), (false, RoleRemoval::WouldLeaveNoAdmins));
}

#[test]
fn ingest_dedupes_by_key_and_defaults_the_user() {
    match plan_ingest(Some("k1".into()), Some("usage_1".into()), None) {
        IngestPlan::Deduplicated(r) => {
            assert_eq!(r.event_id, "usage_1");
            assert!(r.deduped);
        }
        other => panic!("expected a dedupe, got {other:?}"),
    }
    match plan_ingest(Some("k2".into()), None, None) {
        IngestPlan::Store { user_id, key } => {
            assert_eq!(user_id, "system_default_user");
            assert_eq!(key.as_deref(), Some("k2"));
        }
        other => panic!("expected a store, got {other:?}"),
    }
    match plan_ingest(None, None, Some("u7".into())) {
        IngestPlan::Store { user_id, key } => {
            assert_eq!(user_id, "u7");
            assert_eq!(key, None);
        }
        other => panic!("expected a store, got {other:?}"),
    }
}
