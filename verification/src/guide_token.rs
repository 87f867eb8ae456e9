//! Per-conversation identity token for the Guide MCP HTTP bridge.
//!
//! The Guide server issues and verifies tokens in the same process, so an
//! authenticated cipher (AES-256-GCM) keyed from the server secret is enough to
//! bind `(conversation_id, user_id)` to the token: the bridge takes both ids
//! from the verified token, never from the caller's body.

use vstd::prelude::*;
use vstd::utf8::{decode_utf8, encode_utf8, valid_utf8};

use crate::crypto::{
    aes256_gcm_decrypt, aes256_gcm_encrypt, aes256_gcm_open, aes256_gcm_seal, base64_decode,
    base64_decoding, base64_encode, base64_encoding, is_base64_char, random_bytes, sha256, sha256_digest, utf8_to_string,
    AES_GCM_MAX_PLAINTEXT,
};
use crate::text::{chars_of, contains_char, split_once_chars, split_once_spec, is_first_index, lemma_first_index};

verus! {

broadcast use {vstd::utf8::encode_utf8_decode_utf8, vstd::utf8::encode_utf8_valid_utf8};

/// Separator of the payload `conversation_id`\n`user_id`.
pub const SEP: char = '\n';

/// Domain prefix hashed in front of the secret when deriving the key.
pub open spec fn key_domain() -> Seq<char> {
    "aionui-guide-conversation-token:"@
}

/// The 32-byte AES key derived from the Guide server secret.
pub open spec fn guide_key(secret: Seq<char>) -> Seq<u8> {
    sha256_digest(encode_utf8(key_domain()) + encode_utf8(secret))
}

/// The plaintext a token carries: the UTF-8 of `conversation_id`\n`user_id`.
pub open spec fn token_payload(conversation_id: Seq<char>, user_id: Seq<char>) -> Seq<u8> {
    encode_utf8(conversation_id + seq![SEP] + user_id)
}

/// The token for `payload` under `key` and `nonce`: base64 of the nonce
/// followed by the sealed payload.
pub open spec fn sealed_token(key: Seq<u8>, nonce: Seq<u8>, payload: Seq<u8>) -> Seq<char> {
    base64_encoding(nonce + aes256_gcm_seal(key, nonce, payload))
}

/// What a token opens to under `key`: base64-decode, take the 12-byte nonce,
/// authenticate and decrypt the rest.
pub open spec fn opened_token(key: Seq<u8>, token: Seq<char>) -> Option<Seq<u8>> {
    match base64_decoding(token) {
        Some(bytes) => if bytes.len() >= 12 {
            aes256_gcm_open(key, bytes.take(12), bytes.skip(12))
        } else {
            None
        },
        None => None,
    }
}

/// The ids a token binds under `secret`: `None` for the empty token, a token
/// that does not open, a payload that is not UTF-8 or that has no separator.
pub open spec fn bound_ids(secret: Seq<char>, token: Seq<char>) -> Option<(Seq<char>, Seq<char>)> {
    if token.len() == 0 {
        None
    } else {
        match opened_token(guide_key(secret), token) {
            Some(p) => if valid_utf8(p) {
                split_once_spec(decode_utf8(p), SEP)
            } else {
                None
            },
            None => None,
        }
    }
}

/// Derives the AES key from the Guide server secret (domain-separated from
/// other uses of the same secret).
fn key_from_secret(secret: &str) -> (r: [u8; 32])
    ensures
        r@ == guide_key(secret@),
{
    let mut material = vstd::slice::slice_to_vec("aionui-guide-conversation-token:".as_bytes());
    let mut rest = vstd::slice::slice_to_vec(secret.as_bytes());
    material.append(&mut rest);
    sha256(material.as_slice())
}

/// Seals `plain` under `key` with `nonce`: the base64 of the nonce followed
/// by the AES-256-GCM ciphertext. `None` exactly when `plain` is too long
/// for the cipher; a sealed text is non-empty and opens back to `plain`.
pub fn seal_bytes(key: &[u8; 32], nonce: [u8; 12], plain: &[u8]) -> (r: Option<String>)
    ensures
        r is None <==> plain@.len() > AES_GCM_MAX_PLAINTEXT,
        r matches Some(t) ==> t@ == sealed_token(key@, nonce@, plain@) && t@.len() > 0 && opened_token(key@, t@)
            == Some(plain@),
        r matches Some(t) ==> forall|i: int| 0 <= i < t@.len() ==> is_base64_char(#[trigger] t@[i]),
{
    match aes256_gcm_encrypt(key, &nonce, plain) {
        Some(mut sealed) => {
            let mut framed = vstd::slice::slice_to_vec(vstd::array::array_as_slice(&nonce));
            let ghost n = framed@;
            let ghost c = sealed@;
            framed.append(&mut sealed);
            let token = base64_encode(framed.as_slice());
            proof {
                assert((n + c).take(12) =~= n);
                assert((n + c).skip(12) =~= c);
            }
            Some(token)
        },
        None => None,
    }
}

/// Opens a sealed text under `key`: base64-decode, take the 12-byte nonce,
/// authenticate and decrypt the rest.
pub fn open_bytes(key: &[u8; 32], token: &str) -> (r: Option<Vec<u8>>)
    ensures
        match r {
            Some(p) => opened_token(key@, token@) == Some(p@),
            None => opened_token(key@, token@) is None,
        },
{
    let bytes = match base64_decode(token) {
        Some(b) => b,
        None => return None,
    };
    if bytes.len() < 12 {
        return None;
    }
    let nonce = vstd::slice::slice_subrange(bytes.as_slice(), 0, 12);
    let sealed = vstd::slice::slice_subrange(bytes.as_slice(), 12, bytes.len());
    proof {
        assert(nonce@ =~= bytes@.take(12));
        assert(sealed@ =~= bytes@.skip(12));
    }
    aes256_gcm_decrypt(key, nonce, sealed)
}

/// The token for `(conversation_id, user_id)` sealed with the given nonce.
/// Empty when an id holds the separator (fail-closed: the bridge answers 401)
/// or when the payload is too long for the cipher; otherwise exactly the
/// sealed token, which opens back to the payload.
pub fn scope_with_nonce(secret: &str, conversation_id: &str, user_id: &str, nonce: [u8; 12]) -> (r: String)
    ensures
        conversation_id@.contains(SEP) || user_id@.contains(SEP) ==> r@ == Seq::<char>::empty(),
        !conversation_id@.contains(SEP) && !user_id@.contains(SEP) ==> if token_payload(
            conversation_id@,
            user_id@,
        ).len() <= AES_GCM_MAX_PLAINTEXT {
            &&& r@ == sealed_token(guide_key(secret@), nonce@, token_payload(conversation_id@, user_id@))
            &&& r@.len() > 0
            &&& opened_token(guide_key(secret@), r@) == Some(token_payload(conversation_id@, user_id@))
        } else {
            r@ == Seq::<char>::empty()
        },
{
    if contains_char(conversation_id, SEP) || contains_char(user_id, SEP) {
        return String::new();
    }
    let mut payload = String::from_str(conversation_id);
    payload.append("\n");
    payload.append(user_id);
    proof {
        reveal_strlit("\n");
        assert("\n"@ =~= seq![SEP]);
        assert(payload@ =~= conversation_id@ + seq![SEP] + user_id@);
    }
    let key = key_from_secret(secret);
    let payload_str = payload.as_str();
    let plain = payload_str.as_bytes();
    match seal_bytes(&key, nonce, plain) {
        Some(token) => token,
        None => String::new(),
    }
}

/// Issues a token that binds `(conversation_id, user_id)` to `secret`, with a
/// fresh random nonce. Empty (fail-closed) when an id holds the separator,
/// when the payload is too long for the cipher, or when no randomness was
/// available; a non-empty token opens back to the payload.
pub fn scope(secret: &str, conversation_id: &str, user_id: &str) -> (r: String)
    ensures
        conversation_id@.contains(SEP) || user_id@.contains(SEP) ==> r@ == Seq::<char>::empty(),
        token_payload(conversation_id@, user_id@).len() > AES_GCM_MAX_PLAINTEXT ==> r@ == Seq::<char>::empty(),
        r@.len() > 0 ==> {
            &&& !conversation_id@.contains(SEP)
            &&& !user_id@.contains(SEP)
            &&& opened_token(guide_key(secret@), r@) == Some(token_payload(conversation_id@, user_id@))
            &&& exists|n: Seq<u8>|
                n.len() == 12 && r@ == sealed_token(
                    guide_key(secret@),
                    n,
                    token_payload(conversation_id@, user_id@),
                )
        },
{
    if contains_char(conversation_id, SEP) || contains_char(user_id, SEP) {
        return String::new();
    }
    match random_bytes::<12>() {
        Some(nonce) => {
            let r = scope_with_nonce(secret, conversation_id, user_id, nonce);
            proof {
                if r@.len() > 0 {
                    assert(nonce@.len() == 12);
                }
            }
            r
        },
        None => String::new(),
    }
}

/// Verifies a token and returns the `(conversation_id, user_id)` it binds, or
/// `None` if it is empty, forged, sealed under another secret or malformed.
pub fn verify(secret: &str, token: &str) -> (r: Option<(String, String)>)
    ensures
        match r {
            Some((c, u)) => bound_ids(secret@, token@) == Some((c@, u@)),
            None => bound_ids(secret@, token@) is None,
        },
{
    if token.unicode_len() == 0 {
        return None;
    }
    let key = key_from_secret(secret);
    let plain = match open_bytes(&key, token) {
        Some(p) => p,
        None => return None,
    };
    let text = match utf8_to_string(plain) {
        Some(t) => t,
        None => return None,
    };
    let chars = chars_of(text.as_str());
    split_once_chars(chars.as_slice(), SEP)
}

/// What a verification gives back of an issue: a non-empty token that opens
/// to the payload of `(conversation_id, user_id)` — as every non-empty token
/// from `scope` does — verifies to exactly those two ids.
pub proof fn verify_recovers_scoped_ids(
    secret: Seq<char>,
    conversation_id: Seq<char>,
    user_id: Seq<char>,
    token: Seq<char>,
)
    requires
        !conversation_id.contains(SEP),
        !user_id.contains(SEP),
        token.len() > 0,
        opened_token(guide_key(secret), token) == Some(token_payload(conversation_id, user_id)),
    ensures
        bound_ids(secret, token) == Some((conversation_id, user_id)),
{
    let s = conversation_id + seq![SEP] + user_id;
    let i = conversation_id.len() as int;
    assert(decode_utf8(encode_utf8(s)) == s);
    assert(s[i] == SEP);
    assert forall|j: int| 0 <= j < i implies s[j] != SEP by {
        assert(s[j] == conversation_id[j]);
    }
    assert(is_first_index(s, SEP, i));
    lemma_first_index(s, SEP, i);
    assert(s.take(i) =~= conversation_id);
    assert(s.skip(i + 1) =~= user_id);
}

} // verus!
