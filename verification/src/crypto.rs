//! Calls into the hashing, encryption, encoding and randomness crates.
//!
//! Every function here is trusted: its contract restates what the called
//! crate documents, over the names declared below, and is not proved.

use vstd::prelude::*;
use vstd::utf8::{decode_utf8, valid_utf8};

use aes_gcm::aead::Aead;
use aes_gcm::{Aes256Gcm, Key, KeyInit, Nonce};
use base64::Engine;
use ed25519_dalek::{Signature, Signer, SigningKey, Verifier};
use sha2::{Digest, Sha256};

verus! {

/// Largest plaintext, in bytes, that AES-256-GCM accepts (`aes_gcm::P_MAX`).
pub const AES_GCM_MAX_PLAINTEXT: u64 = 0x10_0000_0000;

/// The URL-safe, unpadded base64 text of `data`.
pub uninterp spec fn base64url_encoding(data: Seq<u8>) -> Seq<char>;

/// The bytes that URL-safe, unpadded base64 text decodes to, or `None` when
/// `text` is not such base64.
pub uninterp spec fn base64url_decoding(text: Seq<char>) -> Option<Seq<u8>>;

/// The Ed25519 public key of the signing key whose secret seed is `seed`.
pub uninterp spec fn ed25519_public_key(seed: Seq<u8>) -> Seq<u8>;

/// The Ed25519 signature of `message` by the signing key whose seed is
/// `seed`.
pub uninterp spec fn ed25519_signature(seed: Seq<u8>, message: Seq<u8>) -> Seq<u8>;

/// Whether `signature` is a valid Ed25519 signature of `message` under
/// `public_key`.
pub uninterp spec fn ed25519_accepts(public_key: Seq<u8>, message: Seq<u8>, signature: Seq<u8>) -> bool;

/// The lowercase hexadecimal digit of `d` (`d < 16`).
pub open spec fn hex_digit(d: int) -> char {
    if d < 10 {
        (('0' as int) + d) as char
    } else {
        (('a' as int) + d - 10) as char
    }
}

/// The lowercase hexadecimal text of `data`: two digits per byte, high
/// nibble first.
pub open spec fn hex_text(data: Seq<u8>) -> Seq<char>
    decreases data.len(),
{
    if data.len() == 0 {
        Seq::empty()
    } else {
        hex_text(data.drop_last()) + seq![hex_digit((data.last() / 16) as int), hex_digit((data.last() % 16) as int)]
    }
}

/// The SHA-256 digest of `data`.
pub uninterp spec fn sha256_digest(data: Seq<u8>) -> Seq<u8>;

/// The AES-256-GCM ciphertext (with its 16-byte tag appended) of `plaintext`
/// under `key` and `nonce`, no associated data.
pub uninterp spec fn aes256_gcm_seal(key: Seq<u8>, nonce: Seq<u8>, plaintext: Seq<u8>) -> Seq<u8>;

/// The AES-256-GCM decryption of `ciphertext` under `key` and `nonce`:
/// `None` when the tag does not authenticate.
pub uninterp spec fn aes256_gcm_open(key: Seq<u8>, nonce: Seq<u8>, ciphertext: Seq<u8>) -> Option<Seq<u8>>;

/// A character of the standard base64 alphabet, or its padding.
pub open spec fn is_base64_char(c: char) -> bool {
    ('A' <= c && c <= 'Z') || ('a' <= c && c <= 'z') || ('0' <= c && c <= '9') || c == '+' || c == '/' || c == '='
}

/// The standard (padded) base64 text of `data`.
pub uninterp spec fn base64_encoding(data: Seq<u8>) -> Seq<char>;

/// The bytes that standard base64 text decodes to, or `None` when `text` is
/// not valid standard base64.
pub uninterp spec fn base64_decoding(text: Seq<char>) -> Option<Seq<u8>>;

/// `Sha256::digest` from `sha2`: the 32-byte SHA-256 digest of `data`.
#[verifier::external_body]
pub(crate) fn sha256(data: &[u8]) -> (r: [u8; 32])
    ensures
        r@ == sha256_digest(data@),
        r@.len() == 32,
{
    Sha256::digest(data).into()
}

/// `Aead::encrypt` of `Aes256Gcm` from `aes-gcm`, without associated data.
/// The crate refuses exactly the plaintexts longer than `P_MAX`; decrypting what it
/// produced with the same key and nonce gives the plaintext back.
#[verifier::external_body]
pub(crate) fn aes256_gcm_encrypt(key: &[u8; 32], nonce: &[u8; 12], plaintext: &[u8]) -> (r: Option<Vec<u8>>)
    ensures
        r is Some <==> plaintext@.len() <= AES_GCM_MAX_PLAINTEXT,
        r matches Some(c) ==> c@ == aes256_gcm_seal(key@, nonce@, plaintext@) && aes256_gcm_open(
            key@,
            nonce@,
            c@,
        ) == Some(plaintext@),
{
    let cipher = Aes256Gcm::new(Key::<Aes256Gcm>::from_slice(key));
    cipher.encrypt(Nonce::from_slice(nonce), plaintext).ok()
}

/// `Aead::decrypt` of `Aes256Gcm` from `aes-gcm`, without associated data:
/// the plaintext when the tag authenticates, `None` otherwise.
#[verifier::external_body]
pub(crate) fn aes256_gcm_decrypt(key: &[u8; 32], nonce: &[u8], ciphertext: &[u8]) -> (r: Option<Vec<u8>>)
    requires
        nonce@.len() == 12,
    ensures
        r matches Some(p) ==> aes256_gcm_open(key@, nonce@, ciphertext@) == Some(p@),
        r is None ==> aes256_gcm_open(key@, nonce@, ciphertext@) is None,
{
    let cipher = Aes256Gcm::new(Key::<Aes256Gcm>::from_slice(key));
    cipher.decrypt(Nonce::from_slice(nonce), ciphertext).ok()
}

/// `Engine::encode` of `base64::engine::general_purpose::STANDARD`. Decoding
/// the text with the same engine gives the bytes back; non-empty input gives
/// non-empty text, drawn from the standard alphabet and `=`.
#[verifier::external_body]
pub(crate) fn base64_encode(data: &[u8]) -> (r: String)
    ensures
        r@ == base64_encoding(data@),
        base64_decoding(r@) == Some(data@),
        data@.len() > 0 ==> r@.len() > 0,
        forall|i: int| 0 <= i < r@.len() ==> is_base64_char(#[trigger] r@[i]),
{
    base64::engine::general_purpose::STANDARD.encode(data)
}

/// `Engine::decode` of `base64::engine::general_purpose::STANDARD`.
#[verifier::external_body]
pub(crate) fn base64_decode(text: &str) -> (r: Option<Vec<u8>>)
    ensures
        r matches Some(b) ==> base64_decoding(text@) == Some(b@),
        r is None ==> base64_decoding(text@) is None,
{
    base64::engine::general_purpose::STANDARD.decode(text).ok()
}

/// `getrandom::getrandom` on an `N`-byte buffer: fresh random bytes from
/// the operating system, or `None` when its entropy source fails. Nothing is
/// promised of the bytes themselves.
#[verifier::external_body]
pub(crate) fn random_bytes<const N: usize>() -> (r: Option<[u8; N]>) {
    let mut buf = [0u8; N];
    match getrandom::getrandom(&mut buf) {
        Ok(()) => Some(buf),
        Err(_) => None,
    }
}

/// `String::from_utf8`: the text the bytes encode when they are valid UTF-8.
#[verifier::external_body]
pub(crate) fn utf8_to_string(bytes: Vec<u8>) -> (r: Option<String>)
    ensures
        r is Some <==> valid_utf8(bytes@),
        r matches Some(s) ==> s@ == decode_utf8(bytes@),
{
    String::from_utf8(bytes).ok()
}

/// `Engine::encode` of `base64::engine::general_purpose::URL_SAFE_NO_PAD`.
/// Decoding the text with the same engine gives the bytes back; the text is
/// drawn from `A-Z a-z 0-9 - _`, so it never holds a `.`.
#[verifier::external_body]
pub(crate) fn base64url_encode(data: &[u8]) -> (r: String)
    ensures
        r@ == base64url_encoding(data@),
        base64url_decoding(r@) == Some(data@),
        !r@.contains('.'),
{
    base64::engine::general_purpose::URL_SAFE_NO_PAD.encode(data)
}

/// `Engine::decode` of `base64::engine::general_purpose::URL_SAFE_NO_PAD`.
#[verifier::external_body]
pub(crate) fn base64url_decode(text: &str) -> (r: Option<Vec<u8>>)
    ensures
        r matches Some(b) ==> base64url_decoding(text@) == Some(b@),
        r is None ==> base64url_decoding(text@) is None,
{
    base64::engine::general_purpose::URL_SAFE_NO_PAD.decode(text).ok()
}

/// `SigningKey::from_bytes(seed).verifying_key().to_bytes()` from
/// `ed25519-dalek`: the public key of the seed.
#[verifier::external_body]
pub(crate) fn ed25519_public_key_of(seed: &[u8; 32]) -> (r: [u8; 32])
    ensures
        r@ == ed25519_public_key(seed@),
{
    SigningKey::from_bytes(seed).verifying_key().to_bytes()
}

/// `Signer::sign` of the `ed25519-dalek` signing key with this seed, as
/// bytes. A signature it produces verifies under the key's public key.
#[verifier::external_body]
pub(crate) fn ed25519_sign(seed: &[u8; 32], message: &[u8]) -> (r: [u8; 64])
    ensures
        r@ == ed25519_signature(seed@, message@),
        ed25519_accepts(ed25519_public_key(seed@), message@, r@),
{
    SigningKey::from_bytes(seed).sign(message).to_bytes()
}

/// `Signature::from_slice` and `SigningKey::verify` from `ed25519-dalek`:
/// whether the 64 bytes are a valid signature of `message` under the public
/// key of the seed.
#[verifier::external_body]
pub(crate) fn ed25519_verify(seed: &[u8; 32], message: &[u8], signature: &[u8]) -> (r: bool)
    requires
        signature@.len() == 64,
    ensures
        r == ed25519_accepts(ed25519_public_key(seed@), message@, signature@),
{
    match Signature::from_slice(signature) {
        Ok(sig) => SigningKey::from_bytes(seed).verify(message, &sig).is_ok(),
        Err(_) => false,
    }
}

/// The hyphenated text of the version-7 UUID that `uuid` builds from a Unix
/// time in milliseconds and ten counter/random bytes.
pub uninterp spec fn uuid_v7_text(millis: u64, bytes: Seq<u8>) -> Seq<char>;

/// `SystemTime::now().duration_since(UNIX_EPOCH)`, in milliseconds: the
/// time of the system clock, or `None` when the clock reads before the Unix
/// epoch. Depends on the time; nothing is promised of the value.
#[verifier::external_body]
pub(crate) fn unix_time_millis() -> (r: Option<u128>) {
    std::time::SystemTime::now().duration_since(std::time::UNIX_EPOCH).ok().map(|d| d.as_millis())
}

/// `uuid::Builder::from_unix_timestamp_millis(millis, bytes).into_uuid()`
/// in its hyphenated text form: 36 characters, a function of the time and
/// the bytes alone (the builder only places them in the UUID's fields).
#[verifier::external_body]
pub(crate) fn uuid_v7_from(millis: u64, bytes: &[u8; 10]) -> (r: String)
    ensures
        r@ == uuid_v7_text(millis, bytes@),
        r@.len() == 36,
{
    uuid::Builder::from_unix_timestamp_millis(millis, bytes).into_uuid().to_string()
}

/// `hex::encode`: the lowercase hexadecimal text of `data`, two digits per
/// byte, high nibble first.
#[verifier::external_body]
pub(crate) fn hex_encode(data: &[u8]) -> (r: String)
    ensures
        r@ == hex_text(data@),
{
    hex::encode(data)
}

} // verus!
