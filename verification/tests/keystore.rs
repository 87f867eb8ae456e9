use aionui::keystore::{envelope_for_seed, seed_from_envelope, seed_path, KeystoreError};

#[test]
fn envelope_round_trips_the_seed() {
    let kek = [9u8; 32];
    let seed = [4u8; 32];
    let text = envelope_for_seed(&seed, &kek).unwrap();
    assert_eq!(seed_from_envelope(&text, &kek).unwrap(), seed);
    assert_eq!(seed_from_envelope(&format!("  {text}\n"), &kek).unwrap(), seed);
}

#[test]
fn wrong_kek_fails_to_decrypt() {
    let text = envelope_for_seed(&[1u8; 32], &[1u8; 32]).unwrap();
    assert!(matches!(seed_from_envelope(&text, &[2u8; 32]), Err(KeystoreError::Crypto(_))));
}

#[test]
fn garbage_is_refused() {
    assert!(matches!(seed_from_envelope("not base64 at all", &[0u8; 32]), Err(KeystoreError::Crypto(_))));
}

#[test]
fn seed_file_path() {
    assert_eq!(seed_path("/var/lib/core"), "/var/lib/core/secrets/identity.enc");
    assert_eq!(seed_path("/var/lib/core/"), "/var/lib/core/secrets/identity.enc");
}

#[test]
fn keystore_messages() {
    assert_eq!(KeystoreError::CorruptSeed.message(), "corrupt identity seed (expected 32 bytes)");
    assert_eq!(KeystoreError::Io("x".into()).message(), "keystore io error: x");
}
