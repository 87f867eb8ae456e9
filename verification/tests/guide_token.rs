use aionui::guide_token::{scope, scope_with_nonce, verify};

#[test]
fn round_trip_binds_conversation_and_user() {
    let secret = "guide-secret-xyz";
    let token = scope(secret, "conv-A", "user-1");
    assert_eq!(verify(secret, &token), Some(("conv-A".to_owned(), "user-1".to_owned())));
}

#[test]
fn wrong_secret_fails() {
    let token = scope("secret-1", "conv-A", "user-1");
    assert!(verify("secret-2", &token).is_none());
}

#[test]
fn forged_or_empty_token_fails() {
    assert!(verify("s", "").is_none());
    assert!(verify("s", "not-a-valid-token").is_none());
}

#[test]
fn token_hides_plaintext() {
    let token = scope("s", "conv-secret-123", "user-secret");
    assert!(!token.contains("conv-secret-123"));
    assert!(!token.contains("user-secret"));
}

#[test]
fn id_with_separator_is_rejected_fail_closed() {
    assert!(scope("s", "conv\nevil", "user").is_empty());
    assert!(scope("s", "conv", "user\nevil").is_empty());
    assert!(verify("s", &scope("s", "conv\nevil", "user")).is_none());
}

#[test]
fn fixed_nonce_token_round_trips_and_is_deterministic() {
    let a = scope_with_nonce("k", "c1", "u1", [3u8; 12]);
    let b = scope_with_nonce("k", "c1", "u1", [3u8; 12]);
    assert_eq!(a, b);
    assert!(!a.is_empty());
    assert_eq!(verify("k", &a), Some(("c1".to_owned(), "u1".to_owned())));
}

#[test]
fn empty_ids_still_bind() {
    let token = scope("s", "", "");
    assert_eq!(verify("s", &token), Some((String::new(), String::new())));
}

#[test]
fn tampered_token_fails() {
    let token = scope_with_nonce("k", "c1", "u1", [5u8; 12]);
    let mut bytes: Vec<char> = token.chars().collect();
    let i = bytes.len() / 2;
    bytes[i] = if bytes[i] == 'A' { 'B' } else { 'A' };
    let forged: String = bytes.into_iter().collect();
    assert!(verify("k", &forged).is_none());
}
