use ed25519_dalek::Signer;
use base64::Engine;
use aionui::identity::{check_expiry, claims_for, IdentityClaims, IdentityError, RequestIdentityService};

/// The JSON of the claims, as the binary writes it.
fn encode(c: &IdentityClaims) -> Vec<u8> {
    let mut m = serde_json::Map::new();
    m.insert("user_id".into(), serde_json::Value::String(c.user_id.clone()));
    m.insert("roles".into(), serde_json::Value::Array(c.roles.iter().cloned().map(serde_json::Value::String).collect()));
    if let Some(p) = &c.project_id {
        m.insert("project_id".into(), serde_json::Value::String(p.clone()));
    }
    if let Some(p) = &c.profile_id {
        m.insert("profile_id".into(), serde_json::Value::String(p.clone()));
    }
    m.insert("scopes".into(), serde_json::Value::Array(c.scopes.iter().cloned().map(serde_json::Value::String).collect()));
    m.insert("exp".into(), serde_json::Value::from(c.exp));
    m.insert("jti".into(), serde_json::Value::String(c.jti.clone()));
    serde_json::to_vec(&serde_json::Value::Object(m)).unwrap()
}

/// The claims of JSON bytes, as the binary reads them.
fn decode(bytes: &[u8]) -> IdentityClaims {
    let v: serde_json::Value = serde_json::from_slice(bytes).unwrap();
    let strings = |k: &str| -> Vec<String> {
        v[k].as_array().unwrap().iter().map(|s| s.as_str().unwrap().to_string()).collect()
    };
    IdentityClaims {
        user_id: v["user_id"].as_str().unwrap().to_string(),
        roles: strings("roles"),
        project_id: v.get("project_id").and_then(|p| p.as_str()).map(str::to_string),
        profile_id: v.get("profile_id").and_then(|p| p.as_str()).map(str::to_string),
        scopes: strings("scopes"),
        exp: v["exp"].as_i64().unwrap(),
        jti: v["jti"].as_str().unwrap().to_string(),
    }
}

fn svc() -> RequestIdentityService {
    RequestIdentityService::from_seed([7u8; 32])
}

fn issue_for(
    s: &RequestIdentityService,
    user_id: &str,
    roles: Vec<String>,
    project_id: Option<String>,
    profile_id: Option<String>,
    scopes: Vec<String>,
    now_ms: i64,
    ttl_ms: i64,
) -> String {
    let claims = claims_for(user_id.to_string(), roles, project_id, profile_id, scopes, now_ms, ttl_ms).unwrap();
    s.issue_payload(&encode(&claims))
}

fn verify(s: &RequestIdentityService, token: &str, now_ms: i64) -> Result<IdentityClaims, IdentityError> {
    let payload = s.open_token(token)?;
    check_expiry(decode(&payload), now_ms)
}

#[test]
fn round_trip_valid() {
    let s = svc();
    let token = issue_for(&s, "u1", vec!["ingenieria".into()], Some("p1".into()), None, vec!["read".into()], 1_000, 60_000);
    let claims = verify(&s, &token, 1_500).unwrap();
    assert_eq!(claims.user_id, "u1");
    assert_eq!(claims.roles, vec!["ingenieria".to_string()]);
    assert_eq!(claims.project_id.as_deref(), Some("p1"));
    assert_eq!(claims.profile_id, None);
    assert!(!claims.jti.is_empty());
}

#[test]
fn round_trip_with_profile_id() {
    let s = svc();
    let token = issue_for(
        &s,
        "u1",
        vec!["ingenieria".into()],
        Some("p1".into()),
        Some("ingenieria".into()),
        vec!["mcp:ingelmec-kb".into()],
        1_000,
        60_000,
    );
    let claims = verify(&s, &token, 1_500).unwrap();
    assert_eq!(claims.profile_id.as_deref(), Some("ingenieria"));
    assert_eq!(claims.scopes, vec!["mcp:ingelmec-kb".to_string()]);
}

#[test]
fn rejects_tampered_signature() {
    let s = svc();
    let token = issue_for(&s, "u1", vec![], None, None, vec![], 1_000, 60_000);
    let (p, _sig) = token.split_once('.').unwrap();
    let forged = format!("{p}.{}", base64::engine::general_purpose::URL_SAFE_NO_PAD.encode([0u8; 64]));
    assert!(matches!(verify(&s, &forged, 1_500), Err(IdentityError::BadSignature)));
}

#[test]
fn rejects_expired() {
    let s = svc();
    let token = issue_for(&s, "u1", vec![], None, None, vec![], 1_000, 10);
    assert!(matches!(verify(&s, &token, 2_000), Err(IdentityError::Expired)));
}

#[test]
fn wrong_key_fails() {
    let a = RequestIdentityService::from_seed([1u8; 32]);
    let b = RequestIdentityService::from_seed([2u8; 32]);
    let token = issue_for(&a, "u1", vec![], None, None, vec![], 1_000, 60_000);
    assert!(verify(&b, &token, 1_500).is_err());
}

#[test]
fn expiry_is_exclusive() {
    let s = svc();
    let token = issue_for(&s, "u1", vec![], None, None, vec![], 1_000, 100);
    assert!(matches!(verify(&s, &token, 1_100), Err(IdentityError::Expired)));
    assert!(verify(&s, &token, 1_099).is_ok());
}

#[test]
fn malformed_tokens() {
    let s = svc();
    assert!(matches!(s.open_token("no-dot-here"), Err(IdentityError::Malformed)));
    assert!(matches!(s.open_token("!!!.abc"), Err(IdentityError::Malformed)));
    assert!(matches!(s.open_token("e30.AAAA"), Err(IdentityError::Malformed)));
}

#[test]
fn public_key_is_stable_and_url_safe() {
    let a = svc().public_key_base64();
    assert_eq!(a, svc().public_key_base64());
    assert_eq!(a.len(), 43);
    assert!(!a.contains('=') && !a.contains('+') && !a.contains('/'));
    assert_ne!(a, RequestIdentityService::from_seed([1u8; 32]).public_key_base64());
}

#[test]
fn generated_services_round_trip() {
    let (s, seed) = RequestIdentityService::generate().unwrap();
    assert_eq!(s.public_key_base64(), RequestIdentityService::from_seed(seed).public_key_base64());
    let token = s.issue_payload(b"payload");
    assert_eq!(s.open_token(&token).unwrap(), b"payload".to_vec());
}

#[test]
fn error_messages() {
    assert_eq!(IdentityError::Malformed.message(), "malformed identity token");
    assert_eq!(IdentityError::Expired.message(), "identity token expired");
    assert_eq!(IdentityError::Serde("x".into()).message(), "identity serialization error: x");
}

#[test]
fn old_token_without_profile_id_field_still_verifies() {
    let s = svc();
    let mut legacy = serde_json::Map::new();
    legacy.insert("user_id".into(), serde_json::Value::String("u1".into()));
    legacy.insert("roles".into(), serde_json::Value::Array(vec![serde_json::Value::String("ingenieria".into())]));
    legacy.insert("project_id".into(), serde_json::Value::String("p1".into()));
    legacy.insert("scopes".into(), serde_json::Value::Array(vec![serde_json::Value::String("read".into())]));
    legacy.insert("exp".into(), serde_json::Value::from(1_000i64 + 60_000));
    legacy.insert("jti".into(), serde_json::Value::String(uuid::Uuid::now_v7().to_string()));
    let payload = serde_json::to_vec(&serde_json::Value::Object(legacy)).unwrap();
    assert!(!String::from_utf8_lossy(&payload).contains("profile_id"), "legacy payload must not contain profile_id");
    let sig = ed25519_dalek::SigningKey::from_bytes(&[7u8; 32]).sign(&payload);
    let b64 = base64::engine::general_purpose::URL_SAFE_NO_PAD;
    let token = format!("{}.{}", b64.encode(&payload), b64.encode(sig.to_bytes()));

    let claims = verify(&s, &token, 1_500).unwrap();
    assert_eq!(claims.user_id, "u1");
    assert_eq!(claims.project_id.as_deref(), Some("p1"));
    assert_eq!(claims.profile_id, None);
}

#[test]
fn claims_get_a_fresh_uuid_v7() {
    let c = claims_for("u1".into(), vec![], None, None, vec![], 1_000, 5).unwrap();
    assert_eq!(c.jti.len(), 36);
    assert_eq!(uuid::Uuid::parse_str(&c.jti).unwrap().get_version_num(), 7);
    assert_eq!(c.exp, 1_005);
    let d = claims_for("u1".into(), vec![], None, None, vec![], 1_000, 5).unwrap();
    assert_ne!(c.jti, d.jti);
}
