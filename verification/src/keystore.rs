//! The identity seed at rest: `<data_dir>/secrets/identity.enc` holds the
//! base64 of the 32-byte Ed25519 seed, sealed with AES-256-GCM under a key
//! derived from a deployment secret (never stored beside it). The binary
//! reads and writes the file (mode `0600`); this module seals and opens it.

use vstd::prelude::*;
use vstd::utf8::{decode_utf8, encode_utf8, valid_utf8};

use crate::config::{join, join_path};
use crate::crypto::{base64_decode, base64_decoding, base64_encode, is_base64_char, random_bytes, utf8_to_string};
use crate::guide_token::{open_bytes, opened_token, seal_bytes};
use crate::text::{lemma_trim_unchanged, trim, trim_spec};

verus! {

broadcast use {vstd::utf8::encode_utf8_decode_utf8, vstd::utf8::encode_utf8_valid_utf8};

/// Why the seed could not be loaded or stored.
#[derive(Debug, Clone)]
pub enum KeystoreError {
    /// Reading or writing the file failed; the system's message.
    Io(String),
    /// Sealing or opening failed; what went wrong.
    Crypto(String),
    /// The opened seed is not the base64 of 32 bytes.
    CorruptSeed,
    /// No randomness for a new seed.
    Entropy,
}

impl KeystoreError {
    /// The human-readable message of this error.
    pub fn message(&self) -> (r: String)
        ensures
            match *self {
                KeystoreError::Io(m) => r@ == "keystore io error: "@ + m@,
                KeystoreError::Crypto(m) => r@ == "keystore crypto error: "@ + m@,
                KeystoreError::CorruptSeed => r@ == "corrupt identity seed (expected 32 bytes)"@,
                KeystoreError::Entropy => r@ == "entropy error"@,
            },
    {
        match self {
            KeystoreError::Io(m) => {
                let mut r = String::from_str("keystore io error: ");
                r.append(m.as_str());
                r
            },
            KeystoreError::Crypto(m) => {
                let mut r = String::from_str("keystore crypto error: ");
                r.append(m.as_str());
                r
            },
            KeystoreError::CorruptSeed => String::from_str("corrupt identity seed (expected 32 bytes)"),
            KeystoreError::Entropy => String::from_str("entropy error"),
        }
    }
}

/// The path of the seed file under `data_dir`.
pub fn seed_path(data_dir: &str) -> (r: String)
    ensures
        r@ == join_path(join_path(data_dir@, "secrets"@), "identity.enc"@),
{
    let secrets = join(data_dir, "secrets");
    join(secrets.as_str(), "identity.enc")
}

/// Why a seed file does not open.
#[derive(Debug, Clone, Copy, PartialEq, Eq, Structural)]
pub enum SeedFailure {
    /// The text does not open under the key.
    Undecryptable,
    /// What it opens to is not UTF-8.
    NotText,
    /// What it opens to is not the base64 of 32 bytes.
    Corrupt,
}

/// The seed the file text `text` holds under `kek`.
pub open spec fn opened_seed(kek: Seq<u8>, text: Seq<char>) -> Result<Seq<u8>, SeedFailure> {
    match opened_token(kek, trim_spec(text)) {
        None => Err(SeedFailure::Undecryptable),
        Some(bytes) => if !valid_utf8(bytes) {
            Err(SeedFailure::NotText)
        } else {
            match base64_decoding(trim_spec(decode_utf8(bytes))) {
                Some(seed) => if seed.len() == 32 {
                    Ok(seed)
                } else {
                    Err(SeedFailure::Corrupt)
                },
                None => Err(SeedFailure::Corrupt),
            }
        },
    }
}

/// The error a seed failure is reported as.
pub open spec fn failure_reported_as(f: SeedFailure, e: KeystoreError) -> bool {
    match f {
        SeedFailure::Undecryptable => e matches KeystoreError::Crypto(m) && m@ == "cannot open the identity seed"@,
        SeedFailure::NotText => e matches KeystoreError::Crypto(m) && m@ == "identity seed is not UTF-8 text"@,
        SeedFailure::Corrupt => e is CorruptSeed,
    }
}

/// The seed held by the seed file's text `text` under `kek`.
pub fn seed_from_envelope(text: &str, kek: &[u8; 32]) -> (r: Result<[u8; 32], KeystoreError>)
    ensures
        match r {
            Ok(seed) => opened_seed(kek@, text@) == Ok::<Seq<u8>, SeedFailure>(seed@),
            Err(e) => opened_seed(kek@, text@) matches Err(f) && failure_reported_as(f, e),
        },
{
    let trimmed = trim(text);
    let bytes = match open_bytes(kek, trimmed.as_str()) {
        Some(b) => b,
        None => {
            return Err(KeystoreError::Crypto(String::from_str("cannot open the identity seed")));
        },
    };
    let seed_text = match utf8_to_string(bytes) {
        Some(t) => t,
        None => {
            return Err(KeystoreError::Crypto(String::from_str("identity seed is not UTF-8 text")));
        },
    };
    let seed_b64 = trim(seed_text.as_str());
    let raw = match base64_decode(seed_b64.as_str()) {
        Some(b) => b,
        None => {
            return Err(KeystoreError::CorruptSeed);
        },
    };
    if raw.len() != 32 {
        return Err(KeystoreError::CorruptSeed);
    }
    let mut seed: [u8; 32] = [0u8; 32];
    let mut i: usize = 0;
    while i < 32
        invariant
            raw@.len() == 32,
            0 <= i <= 32,
            forall|j: int| 0 <= j < i ==> seed@[j] == raw@[j],
        decreases 32 - i,
    {
        seed[i] = raw[i];
        i += 1;
    }
    assert(seed@ =~= raw@);
    Ok(seed)
}

/// A base64 text is left alone by trimming.
proof fn lemma_base64_trims_to_itself(t: Seq<char>)
    requires
        forall|i: int| 0 <= i < t.len() ==> is_base64_char(#[trigger] t[i]),
    ensures
        trim_spec(t) == t,
{
    if t.len() > 0 {
        assert(is_base64_char(t[0]));
        assert(is_base64_char(t[t.len() - 1]));
    }
    lemma_trim_unchanged(t);
}

/// The text of a new seed file: the base64 of `seed`, sealed under `kek`
/// with a fresh random nonce. It opens back to `seed` under the same key;
/// `Crypto` when no randomness is available for the nonce.
pub fn envelope_for_seed(seed: &[u8; 32], kek: &[u8; 32]) -> (r: Result<String, KeystoreError>)
    ensures
        r matches Ok(t) ==> opened_seed(kek@, t@) == Ok::<Seq<u8>, SeedFailure>(seed@),
        r matches Err(e) ==> (e matches KeystoreError::Crypto(_)),
{
    let b64 = base64_encode(vstd::array::array_as_slice(seed));
    let nonce = match random_bytes::<12>() {
        Some(n) => n,
        None => {
            return Err(KeystoreError::Crypto(String::from_str("no randomness for the nonce")));
        },
    };
    let plain = b64.as_str().as_bytes();
    match seal_bytes(kek, nonce, plain) {
        Some(t) => {
            proof {
                lemma_base64_trims_to_itself(t@);
                lemma_base64_trims_to_itself(b64@);
                assert(decode_utf8(encode_utf8(b64@)) == b64@);
            }
            Ok(t)
        },
        None => Err(KeystoreError::Crypto(String::from_str("seed too long to seal"))),
    }
}

} // verus!
