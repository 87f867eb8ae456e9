//! The spending ledger: usage events, the window of the usage views,
//! service tokens of external emitters and the bearer of an ingest request.
//!
//! Amounts in USD (costs, limits) are floating point and are handled by the
//! binary; this module holds the rest of the ledger's rules.

use vstd::prelude::*;
use vstd::utf8::encode_utf8;

use crate::crypto::{hex_encode, hex_text, random_bytes, sha256, sha256_digest};
use crate::errors::ApiError;
use crate::models::TimestampMs;
use crate::text::{chars_of, string_from_chars, trim, trim_spec};

verus! {

/// Default window of the usage views: rolling 30 days, in milliseconds.
pub const DEFAULT_WINDOW_MS: i64 = 2_592_000_000;

/// Optional filters of the admin usage view (`None`: no filter).
#[derive(Debug, Clone, Default)]
pub struct UsageQueryFilters {
    pub profile_id: Option<String>,
    pub engine: Option<String>,
}

/// A usage event of the internal hot path (cost computed from the model's
/// prices when it is recorded).
#[derive(Debug, Clone, Default)]
pub struct NewUsageEvent {
    pub user_id: String,
    pub conversation_id: Option<String>,
    pub project_id: Option<String>,
    pub engine: String,
    pub provider: Option<String>,
    pub model: Option<String>,
    pub tokens_in: i64,
    pub tokens_out: i64,
    pub cache_read: i64,
    pub cache_write: i64,
    pub profile_id: Option<String>,
}

/// The result of an ingest: the stored event (or the existing one when the
/// idempotency key was seen before).
#[derive(Debug, Clone)]
pub struct IngestResult {
    pub event_id: String,
    pub deduped: bool,
}

/// A service token of an external emitter (only its hash is stored).
#[derive(Debug, Clone)]
pub struct ServiceTokenRow {
    pub id: String,
    pub name: String,
    pub token_hash: String,
    pub is_active: bool,
    pub created_at: TimestampMs,
}

/// A newly created service token; the clear token is shown this once.
#[derive(Debug, Clone)]
pub struct CreatedServiceToken {
    pub id: String,
    pub name: String,
    pub token: String,
    pub created_at: TimestampMs,
}

/// The start of a usage window: the given start, else 30 days before
/// `now_ms` (never before the epoch).
pub fn window_start(since_ms: Option<i64>, now_ms: i64) -> (r: i64)
    requires
        now_ms >= i64::MIN + DEFAULT_WINDOW_MS,
    ensures
        match since_ms {
            Some(s) => r == s,
            None => r == if now_ms - DEFAULT_WINDOW_MS > 0 {
                now_ms - DEFAULT_WINDOW_MS
            } else {
                0
            },
        },
{
    match since_ms {
        Some(s) => s,
        None => {
            let start = now_ms - DEFAULT_WINDOW_MS;
            if start > 0 {
                start
            } else {
                0
            }
        },
    }
}

/// The stored hash of a service token: the lowercase hex of the SHA-256 of
/// its UTF-8.
pub open spec fn service_token_hash(raw: Seq<char>) -> Seq<char> {
    hex_text(sha256_digest(encode_utf8(raw)))
}

/// The hash under which a service token is stored and looked up.
pub fn hash_service_token(raw: &str) -> (r: String)
    ensures
        r@ == service_token_hash(raw@),
{
    let digest = sha256(raw.as_bytes());
    hex_encode(vstd::array::array_as_slice(&digest))
}

/// A new clear service token: 32 random bytes in lowercase hex (64
/// characters); `None` when no randomness is available.
pub fn generate_raw_service_token() -> (r: Option<String>)
    ensures
        r matches Some(t) ==> exists|b: Seq<u8>| b.len() == 32 && t@ == hex_text(b),
{
    match random_bytes::<32>() {
        Some(bytes) => Some(hex_encode(vstd::array::array_as_slice(&bytes))),
        None => None,
    }
}

/// The service token of an ingest request, from its `Authorization` header
/// value: what follows `Bearer `, trimmed, when that is not empty. Session
/// cookies never count.
pub open spec fn bearer_of(header: Option<Seq<char>>) -> Option<Seq<char>> {
    match header {
        Some(h) => if h.len() >= 7 && h.take(7) == "Bearer "@ && trim_spec(h.skip(7)).len() > 0 {
            Some(trim_spec(h.skip(7)))
        } else {
            None
        },
        None => None,
    }
}

/// The bearer token of an `Authorization` header value, if any.
pub fn extract_bearer(header: Option<&str>) -> (r: Option<String>)
    ensures
        match r {
            Some(t) => bearer_of(
                match header {
                    Some(h) => Some(h@),
                    None => None,
                },
            ) == Some(t@),
            None => bearer_of(
                match header {
                    Some(h) => Some(h@),
                    None => None,
                },
            ) is None,
        },
{
    let h = match header {
        Some(h) => h,
        None => {
            return None;
        },
    };
    let v = chars_of(h);
    let prefix = "Bearer ";
    proof {
        reveal_strlit("Bearer ");
    }
    if v.len() < 7 {
        return None;
    }
    let head = string_from_chars(vstd::slice::slice_subrange(v.as_slice(), 0, 7));
    assert(v@.subrange(0, 7) =~= v@.take(7));
    if !crate::text::str_eq(head.as_str(), prefix) {
        return None;
    }
    let rest = string_from_chars(vstd::slice::slice_subrange(v.as_slice(), 7, v.len()));
    assert(v@.subrange(7, v@.len() as int) =~= v@.skip(7));
    let t = trim(rest.as_str());
    if t.as_str().is_empty() {
        return None;
    }
    Some(t)
}

/// An ingest needs an engine that is not blank.
pub fn check_ingest_engine(engine: &str) -> (r: Result<(), ApiError>)
    ensures
        trim_spec(engine@).len() == 0 ==> (r matches Err(ApiError::BadRequest(m)) && m@
            == "engine must not be empty"@),
        trim_spec(engine@).len() > 0 ==> r is Ok,
{
    if trim(engine).as_str().is_empty() {
        return Err(ApiError::BadRequest(String::from_str("engine must not be empty")));
    }
    Ok(())
}

/// The first step of an ingest: the hash of the request's service token,
/// to be looked up among the active tokens; 401 when the request carries
/// no bearer token.
pub fn ingest_token_hash(header: Option<&str>) -> (r: Result<String, ApiError>)
    ensures
        bearer_of(
            match header {
                Some(h) => Some(h@),
                None => None,
            },
        ) matches Some(t) ==> (r matches Ok(hash) && hash@ == service_token_hash(t)),
        bearer_of(
            match header {
                Some(h) => Some(h@),
                None => None,
            },
        ) is None ==> (r matches Err(ApiError::Unauthorized(m)) && m@ == "service token required"@),
{
    match extract_bearer(header) {
        Some(t) => Ok(hash_service_token(t.as_str())),
        None => Err(ApiError::Unauthorized(String::from_str("service token required"))),
    }
}

/// The second step of an ingest: the active token found under that hash,
/// 401 when there is none.
pub fn active_service_token(found: Option<ServiceTokenRow>) -> (r: Result<ServiceTokenRow, ApiError>)
    ensures
        found matches Some(t) ==> r == Ok::<ServiceTokenRow, ApiError>(t),
        found is None ==> (r matches Err(ApiError::Unauthorized(m)) && m@ == "invalid or inactive service token"@),
{
    match found {
        Some(t) => Ok(t),
        None => Err(ApiError::Unauthorized(String::from_str("invalid or inactive service token"))),
    }
}

/// The name of a new service token, trimmed; 400 when it is blank.
pub fn service_token_name(name: &str) -> (r: Result<String, ApiError>)
    ensures
        trim_spec(name@).len() == 0 ==> (r matches Err(ApiError::BadRequest(m)) && m@ == "name must not be empty"@),
        trim_spec(name@).len() > 0 ==> (r matches Ok(n) && n@ == trim_spec(name@)),
{
    let n = trim(name);
    if n.as_str().is_empty() {
        return Err(ApiError::BadRequest(String::from_str("name must not be empty")));
    }
    Ok(n)
}

/// The user an ingested event without one is charged to: the only user the
/// initial seed guarantees.
pub const INGEST_DEFAULT_USER: &'static str = "system_default_user";

/// What an ingest does once its idempotency key, if any, was looked up.
#[derive(Debug, Clone)]
pub enum IngestPlan {
    /// The key was seen: answer with the event stored under it, write
    /// nothing.
    Deduplicated(IngestResult),
    /// Store the event, charged to `user_id`, and, when there is one,
    /// record `key` for it (both in one transaction).
    Store { user_id: String, key: Option<String> },
}

/// The plan of an ingest with idempotency key `key`, charged to `user_id`
/// when one is given; `existing` is the event found under the key (looked
/// up only when there is a key). An event whose key was seen is never
/// stored twice.
pub fn plan_ingest(key: Option<String>, existing: Option<String>, user_id: Option<String>) -> (r: IngestPlan)
    ensures
        key is Some && existing is Some ==> (r matches IngestPlan::Deduplicated(res) && res.deduped && res.event_id
            == existing.unwrap()),
        !(key is Some && existing is Some) ==> (r matches IngestPlan::Store { user_id: u, key: k } && k == key
            && u@ == match user_id {
            Some(id) => id@,
            None => INGEST_DEFAULT_USER@,
        }),
{
    match (key, existing) {
        (Some(_), Some(event_id)) => IngestPlan::Deduplicated(IngestResult { event_id, deduped: true }),
        (key, _) => {
            let u = match user_id {
                Some(id) => id,
                None => String::from_str(INGEST_DEFAULT_USER),
            };
            IngestPlan::Store { user_id: u, key }
        },
    }
}

} // verus!
