use aionui::config::identity_root;
use aionui::config::{derive_encryption_key, derive_identity_kek, join, AppConfig};

#[test]
fn test_app_config_default() {
    let config = AppConfig::default();
    assert_eq!(config.host, "127.0.0.1");
    assert_eq!(config.port, 25808);
    assert_eq!(config.data_dir, "data");
    assert_eq!(config.app_version, "0.1.0");
}

#[test]
fn test_app_config_socket_addr() {
    let config = AppConfig { host: "0.0.0.0".to_string(), port: 3000, ..Default::default() };
    assert_eq!(config.socket_addr(), "0.0.0.0:3000");
}

#[test]
fn test_app_config_database_path() {
    let config = AppConfig { data_dir: "/tmp/aionui".to_string(), ..Default::default() };
    assert_eq!(config.database_path(), "/tmp/aionui/aionui-backend.db");
}

#[test]
fn socket_addr_edge_ports() {
    let zero = AppConfig { host: "h".to_string(), port: 0, ..Default::default() };
    assert_eq!(zero.socket_addr(), "h:0");
    let max = AppConfig { host: "h".to_string(), port: 65535, ..Default::default() };
    assert_eq!(max.socket_addr(), "h:65535");
    let ten = AppConfig { host: "h".to_string(), port: 10, ..Default::default() };
    assert_eq!(ten.socket_addr(), "h:10");
}

#[test]
fn enforce_file_scope_follows_local_unless_set() {
    let mut c = AppConfig::default();
    assert!(c.enforce_file_scope());
    c.local = true;
    assert!(!c.enforce_file_scope());
    c.enforce_file_scope = Some(true);
    assert!(c.enforce_file_scope());
    c.local = false;
    c.enforce_file_scope = Some(false);
    assert!(!c.enforce_file_scope());
}

#[test]
fn join_handles_trailing_slash_and_empty_base() {
    assert_eq!(join("/a/", "b"), "/a/b");
    assert_eq!(join("", "b"), "b");
    assert_eq!(join("a", "b"), "a/b");
}

#[test]
fn derived_keys_are_domain_separated() {
    let a = derive_encryption_key("root");
    let b = derive_identity_kek("root");
    assert_ne!(a, b);
    assert_eq!(a, derive_encryption_key("root"));
    assert_ne!(a, derive_encryption_key("other"));
}

#[test]
fn encryption_key_is_sha256_of_prefixed_secret() {
    let expected: [u8; 32] = [
        33, 154, 154, 37, 139, 83, 187, 112, 8, 184, 227, 184, 32, 140, 79, 217, 243, 143, 224, 89, 229, 5, 105, 86,
        176, 116, 95, 179, 8, 35, 69, 191,
    ];
    assert_eq!(derive_encryption_key("root"), expected);
}

#[test]
fn identity_root_prefers_the_master_key() {
    assert_eq!(identity_root(Some("mk".into()), "jwt"), "mk");
    assert_eq!(identity_root(None, "jwt"), "jwt");
}
