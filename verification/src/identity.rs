//! Signed per-request identity (Ed25519).
//!
//! For every request to an agent the server issues a token
//! `<base64url(payload)>.<base64url(signature)>` whose payload is the JSON of
//! the claims `{user_id, roles, project_id?, profile_id?, scopes, exp, jti}`;
//! the agent checks the signature with the server's public key. Revocation
//! rests on `exp` alone: `jti` is meant for a deny-list that does not exist.
//!
//! The claims are turned into JSON (and back) by the binary; this module
//! frames, signs, checks and dates the payload bytes.

use vstd::prelude::*;

use crate::crypto::{
    base64url_decode, base64url_decoding, base64url_encode, base64url_encoding, ed25519_accepts,
    ed25519_public_key, ed25519_public_key_of, ed25519_sign, ed25519_signature, ed25519_verify, random_bytes,
    unix_time_millis, uuid_v7_from, uuid_v7_text,
};
use crate::text::{chars_of, split_once_chars, split_once_spec, is_first_index, lemma_first_index};

verus! {

/// The claims a token carries.
#[derive(Debug, Clone)]
pub struct IdentityClaims {
    pub user_id: String,
    /// The user's business roles.
    pub roles: Vec<String>,
    /// The active project, if any.
    pub project_id: Option<String>,
    /// The active agent profile, if any (absent in tokens that predate it).
    pub profile_id: Option<String>,
    /// The scopes granted to this request.
    pub scopes: Vec<String>,
    /// Expiry, in Unix milliseconds.
    pub exp: i64,
    /// Unique token id.
    pub jti: String,
}

/// Why a token is refused, or a token could not be made.
#[derive(Debug, Clone)]
pub enum IdentityError {
    Malformed,
    BadSignature,
    Expired,
    /// The claims are not the JSON of a claims object; the parser's message.
    Serde(String),
    Entropy,
}

impl IdentityError {
    /// The human-readable message of this error.
    pub fn message(&self) -> (r: String)
        ensures
            match *self {
                IdentityError::Malformed => r@ == "malformed identity token"@,
                IdentityError::BadSignature => r@ == "invalid identity signature"@,
                IdentityError::Expired => r@ == "identity token expired"@,
                IdentityError::Serde(m) => r@ == "identity serialization error: "@ + m@,
                IdentityError::Entropy => r@ == "entropy error"@,
            },
    {
        match self {
            IdentityError::Malformed => String::from_str("malformed identity token"),
            IdentityError::BadSignature => String::from_str("invalid identity signature"),
            IdentityError::Expired => String::from_str("identity token expired"),
            IdentityError::Serde(m) => {
                let mut r = String::from_str("identity serialization error: ");
                r.append(m.as_str());
                r
            },
            IdentityError::Entropy => String::from_str("entropy error"),
        }
    }
}

/// Signs and checks identity tokens with the Ed25519 key of a 32-byte seed
/// (the seed is what the server persists).
#[derive(Debug, Clone)]
pub struct RequestIdentityService {
    seed: [u8; 32],
}

/// The token of `payload` under the key of `seed`.
pub open spec fn token_of(seed: Seq<u8>, payload: Seq<u8>) -> Seq<char> {
    base64url_encoding(payload) + seq!['.'] + base64url_encoding(ed25519_signature(seed, payload))
}

/// The payload a token carries when it is well formed and signed by the key
/// of `seed`: `Err` with why it is refused otherwise.
pub open spec fn opened_payload(seed: Seq<u8>, token: Seq<char>) -> Result<Seq<u8>, IdentityError> {
    match split_once_spec(token, '.') {
        None => Err(IdentityError::Malformed),
        Some((p, s)) => match (base64url_decoding(p), base64url_decoding(s)) {
            (Some(payload), Some(sig)) => if sig.len() != 64 {
                Err(IdentityError::Malformed)
            } else if !ed25519_accepts(ed25519_public_key(seed), payload, sig) {
                Err(IdentityError::BadSignature)
            } else {
                Ok(payload)
            },
            _ => Err(IdentityError::Malformed),
        },
    }
}

impl RequestIdentityService {
    /// The seed of this service's key.
    pub closed spec fn seed_spec(&self) -> Seq<u8> {
        self.seed@
    }

    /// The service whose key has the 32-byte seed `seed`.
    pub fn from_seed(seed: [u8; 32]) -> (r: Self)
        ensures
            r.seed_spec() == seed@,
    {
        RequestIdentityService { seed }
    }

    /// A service with a fresh random key and its seed (to be persisted, so
    /// that tokens still verify after a restart); `Entropy` when no
    /// randomness is available.
    pub fn generate() -> (r: Result<(Self, [u8; 32]), IdentityError>)
        ensures
            r matches Ok((s, seed)) ==> s.seed_spec() == seed@,
            r matches Err(e) ==> e is Entropy,
    {
        match random_bytes::<32>() {
            Some(seed) => Ok((RequestIdentityService::from_seed(seed), seed)),
            None => Err(IdentityError::Entropy),
        }
    }

    /// The public key, base64url (for the agents).
    pub fn public_key_base64(&self) -> (r: String)
        ensures
            r@ == base64url_encoding(ed25519_public_key(self.seed_spec())),
    {
        let pk = ed25519_public_key_of(&self.seed);
        base64url_encode(vstd::array::array_as_slice(&pk))
    }

    /// The signed token of the claims' JSON bytes:
    /// `<base64url(payload)>.<base64url(signature)>`.
    /// A token it issues opens, under the same service, to its payload.
    pub fn issue_payload(&self, payload: &[u8]) -> (r: String)
        ensures
            r@ == token_of(self.seed_spec(), payload@),
            opened_payload(self.seed_spec(), r@) == Ok::<Seq<u8>, IdentityError>(payload@),
    {
        let sig = ed25519_sign(&self.seed, payload);
        let mut r = base64url_encode(payload);
        r.append(".");
        let s = base64url_encode(vstd::array::array_as_slice(&sig));
        r.append(s.as_str());
        proof {
            reveal_strlit(".");
            assert("."@ =~= seq!['.']);
            lemma_token_opens(self.seed@, payload@);
        }
        r
    }

    /// Checks a token's framing and signature and returns its payload bytes:
    /// `Malformed` without a `.`, with a part that is not base64url or a
    /// signature that is not 64 bytes; `BadSignature` when the signature does
    /// not verify under this service's key.
    pub fn open_token(&self, token: &str) -> (r: Result<Vec<u8>, IdentityError>)
        ensures
            match r {
                Ok(p) => opened_payload(self.seed_spec(), token@) == Ok::<Seq<u8>, IdentityError>(p@),
                Err(e) => opened_payload(self.seed_spec(), token@) matches Err(f) && f == e,
            },
    {
        let chars = chars_of(token);
        let (p_b64, s_b64) = match split_once_chars(chars.as_slice(), '.') {
            Some(parts) => parts,
            None => {
                return Err(IdentityError::Malformed);
            },
        };
        let payload = match base64url_decode(p_b64.as_str()) {
            Some(p) => p,
            None => {
                return Err(IdentityError::Malformed);
            },
        };
        let sig = match base64url_decode(s_b64.as_str()) {
            Some(s) => s,
            None => {
                return Err(IdentityError::Malformed);
            },
        };
        if sig.len() != 64 {
            return Err(IdentityError::Malformed);
        }
        if !ed25519_verify(&self.seed, payload.as_slice(), sig.as_slice()) {
            return Err(IdentityError::BadSignature);
        }
        Ok(payload)
    }
}

/// A fresh UUID v7 from the system clock and ten random bytes: `None`
/// when the clock reads before the Unix epoch or past what a `u64` of
/// milliseconds holds, or when no randomness is available.
fn fresh_uuid_v7() -> (r: Option<String>)
    ensures
        r matches Some(s) ==> s@.len() == 36 && exists|ms: u64, b: Seq<u8>|
            b.len() == 10 && s@ == #[trigger] uuid_v7_text(ms, b),
{
    let ms = match unix_time_millis() {
        Some(ms) => ms,
        None => {
            return None;
        },
    };
    if ms > u64::MAX as u128 {
        return None;
    }
    let ms: u64 = ms as u64;
    match random_bytes::<10>() {
        Some(bytes) => {
            let id = uuid_v7_from(ms, &bytes);
            assert(bytes@.len() == 10);
            Some(id)
        },
        None => None,
    }
}

/// The claims of a new token: `exp = now_ms + ttl_ms` and a fresh `jti`
/// (a UUID v7 drawn from the clock and randomness). `None` only when that
/// id could not be drawn (the clock reads before the Unix epoch, or no
/// randomness is available); every other field is the one given.
pub fn claims_for(
    user_id: String,
    roles: Vec<String>,
    project_id: Option<String>,
    profile_id: Option<String>,
    scopes: Vec<String>,
    now_ms: i64,
    ttl_ms: i64,
) -> (r: Option<IdentityClaims>)
    requires
        i64::MIN <= now_ms + ttl_ms <= i64::MAX,
    ensures
        r matches Some(c) ==> {
            &&& c.user_id == user_id
            &&& c.roles == roles
            &&& c.project_id == project_id
            &&& c.profile_id == profile_id
            &&& c.scopes == scopes
            &&& c.exp == now_ms + ttl_ms
            &&& c.jti@.len() == 36
            &&& exists|ms: u64, b: Seq<u8>| b.len() == 10 && c.jti@ == #[trigger] uuid_v7_text(ms, b)
        },
{
    match fresh_uuid_v7() {
        Some(jti) => Some(IdentityClaims { user_id, roles, project_id, profile_id, scopes, exp: now_ms + ttl_ms, jti }),
        None => None,
    }
}

/// The claims of a token whose signature checked, unless they expired:
/// `Expired` when `exp <= now_ms`.
pub fn check_expiry(claims: IdentityClaims, now_ms: i64) -> (r: Result<IdentityClaims, IdentityError>)
    ensures
        claims.exp <= now_ms ==> r matches Err(IdentityError::Expired),
        claims.exp > now_ms ==> r == Ok::<IdentityClaims, IdentityError>(claims),
{
    if claims.exp <= now_ms {
        return Err(IdentityError::Expired);
    }
    Ok(claims)
}

/// A token framed from a payload's encoding and a valid signature's opens
/// to that payload.
proof fn lemma_token_opens(seed: Seq<u8>, payload: Seq<u8>)
    requires
        base64url_decoding(base64url_encoding(payload)) == Some(payload),
        base64url_decoding(base64url_encoding(ed25519_signature(seed, payload))) == Some(
            ed25519_signature(seed, payload),
        ),
        !base64url_encoding(payload).contains('.'),
        ed25519_signature(seed, payload).len() == 64,
        ed25519_accepts(ed25519_public_key(seed), payload, ed25519_signature(seed, payload)),
    ensures
        opened_payload(seed, token_of(seed, payload)) == Ok::<Seq<u8>, IdentityError>(payload),
{
    let p = base64url_encoding(payload);
    let s = base64url_encoding(ed25519_signature(seed, payload));
    let t = p + seq!['.'] + s;
    let i = p.len() as int;
    assert(t[i] == '.');
    assert forall|j: int| 0 <= j < i implies t[j] != '.' by {
        assert(t[j] == p[j]);
    }
    assert(is_first_index(t, '.', i));
    lemma_first_index(t, '.', i);
    assert(t.take(i) =~= p);
    assert(t.skip(i + 1) =~= s);
}

} // verus!
