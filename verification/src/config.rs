//! Application configuration and the keys derived from the server secret.
//!
//! Paths are held as their text: the database path is the data directory
//! joined with the database file name, as `Path::join` does for a relative
//! name.

use vstd::prelude::*;
use vstd::utf8::encode_utf8;

use crate::crypto::{sha256, sha256_digest};
use crate::text::push_char;

verus! {

/// Host the server binds when none is given.
pub const DEFAULT_HOST: &'static str = "127.0.0.1";

/// Port the server binds when none is given.
pub const DEFAULT_PORT: u16 = 25808;

/// Version of this package, reported by the server.
pub const APP_VERSION: &'static str = "0.1.0";

/// File name of the SQLite database inside the data directory.
pub const DATABASE_FILE: &'static str = "aionui-backend.db";

/// Application configuration (parsed from the command line by the binary).
#[derive(Debug, Clone)]
pub struct AppConfig {
    pub host: String,
    pub port: u16,
    pub data_dir: String,
    pub work_dir: String,
    pub app_version: String,
    /// Local embedded mode: no authentication, the system default user.
    pub local: bool,
    /// Per-user file segregation (each user only reaches
    /// `{work_dir}/users/{id}`). `None` follows `!local`: multi-user is
    /// segregated by default.
    pub enforce_file_scope: Option<bool>,
}

/// The decimal digit character of `d` (`d < 10`).
pub open spec fn digit_char(d: nat) -> char {
    if d == 0 {
        '0'
    } else if d == 1 {
        '1'
    } else if d == 2 {
        '2'
    } else if d == 3 {
        '3'
    } else if d == 4 {
        '4'
    } else if d == 5 {
        '5'
    } else if d == 6 {
        '6'
    } else if d == 7 {
        '7'
    } else if d == 8 {
        '8'
    } else {
        '9'
    }
}

/// The decimal text of `n`, without leading zeros (`"0"` for zero).
pub open spec fn decimal(n: nat) -> Seq<char>
    decreases n,
{
    if n < 10 {
        seq![digit_char(n)]
    } else {
        decimal(n / 10).push(digit_char(n % 10))
    }
}

fn digit(d: u16) -> (c: char)
    requires
        d < 10,
    ensures
        c == digit_char(d as nat),
{
    if d == 0 {
        '0'
    } else if d == 1 {
        '1'
    } else if d == 2 {
        '2'
    } else if d == 3 {
        '3'
    } else if d == 4 {
        '4'
    } else if d == 5 {
        '5'
    } else if d == 6 {
        '6'
    } else if d == 7 {
        '7'
    } else if d == 8 {
        '8'
    } else {
        '9'
    }
}

/// Appends the decimal text of `n` to `s`.
pub fn push_decimal(s: &mut String, n: u16)
    ensures
        final(s)@ == old(s)@ + decimal(n as nat),
    decreases n,
{
    if n >= 10 {
        push_decimal(s, n / 10);
    }
    push_char(s, digit(n % 10));
    proof {
        if n >= 10 {
            assert(old(s)@ + decimal((n / 10) as nat) + seq![digit_char((n % 10) as nat)] =~= old(s)@ + decimal(
                n as nat,
            ));
        } else {
            assert(old(s)@.push(digit_char(n as nat)) =~= old(s)@ + decimal(n as nat));
        }
    }
}

/// `base` joined with the relative file name `name` as `Path::join` does:
/// the name alone when `base` is empty, no extra separator when `base`
/// already ends with `/`.
pub open spec fn join_path(base: Seq<char>, name: Seq<char>) -> Seq<char> {
    if base.len() == 0 {
        name
    } else if base.last() == '/' {
        base + name
    } else {
        base + seq!['/'] + name
    }
}

/// Whether file access is confined to each user's sub-tree under `cfg`.
pub open spec fn file_scope_enforced(cfg: AppConfig) -> bool {
    match cfg.enforce_file_scope {
        Some(b) => b,
        None => !cfg.local,
    }
}

impl AppConfig {
    /// `host:port`, for binding the socket.
    pub fn socket_addr(&self) -> (r: String)
        ensures
            r@ == self.host@ + seq![':'] + decimal(self.port as nat),
    {
        let mut r = self.host.clone();
        push_char(&mut r, ':');
        push_decimal(&mut r, self.port);
        r
    }

    /// Whether the per-user file scope guard applies: the explicit setting,
    /// or `!local` when there is none.
    pub fn enforce_file_scope(&self) -> (r: bool)
        ensures
            r == file_scope_enforced(*self),
    {
        match self.enforce_file_scope {
            Some(b) => b,
            None => !self.local,
        }
    }

    /// Path of the SQLite database file: the data directory joined with
    /// `aionui-backend.db`.
    pub fn database_path(&self) -> (r: String)
        ensures
            r@ == join_path(self.data_dir@, DATABASE_FILE@),
    {
        join(self.data_dir.as_str(), DATABASE_FILE)
    }
}

/// `base` joined with the relative name `name` (see [`join_path`]).
pub fn join(base: &str, name: &str) -> (r: String)
    ensures
        r@ == join_path(base@, name@),
{
    let mut r = String::from_str(base);
    let n = base.unicode_len();
    if n > 0 {
        let last = base.get_char(n - 1);
        if last != '/' {
            push_char(&mut r, '/');
        }
    }
    r.append(name);
    r
}

impl Default for AppConfig {
    fn default() -> (r: Self)
        ensures
            r.host@ == DEFAULT_HOST@,
            r.port == DEFAULT_PORT,
            r.data_dir@ == "data"@,
            r.work_dir@ == "data"@,
            r.app_version@ == APP_VERSION@,
            !r.local,
            r.enforce_file_scope is None,
    {
        AppConfig {
            host: String::from_str(DEFAULT_HOST),
            port: DEFAULT_PORT,
            data_dir: String::from_str("data"),
            work_dir: String::from_str("data"),
            app_version: String::from_str(APP_VERSION),
            local: false,
            enforce_file_scope: None,
        }
    }
}

/// The key derived from `secret` under the domain prefix `domain`: the
/// SHA-256 of the UTF-8 of the prefix followed by the UTF-8 of the secret.
pub open spec fn domain_key(domain: Seq<char>, secret: Seq<char>) -> Seq<u8> {
    sha256_digest(encode_utf8(domain) + encode_utf8(secret))
}

fn derive_with_domain(domain: &str, secret: &str) -> (r: [u8; 32])
    ensures
        r@ == domain_key(domain@, secret@),
{
    let mut material = vstd::slice::slice_to_vec(domain.as_bytes());
    let mut rest = vstd::slice::slice_to_vec(secret.as_bytes());
    material.append(&mut rest);
    sha256(material.as_slice())
}

/// The 32-byte key that encrypts stored provider credentials, derived from
/// the JWT secret.
pub fn derive_encryption_key(jwt_secret: &str) -> (r: [u8; 32])
    ensures
        r@ == domain_key("aionui-encryption-key:"@, jwt_secret@),
{
    derive_with_domain("aionui-encryption-key:", jwt_secret)
}

/// The 32-byte key that encrypts the Ed25519 identity seed. Its domain
/// prefix differs from that of [`derive_encryption_key`], so the two keys
/// are independent even from one root secret.
pub fn derive_identity_kek(root_secret: &str) -> (r: [u8; 32])
    ensures
        r@ == domain_key("alinea-identity-kek:"@, root_secret@),
{
    derive_with_domain("alinea-identity-kek:", root_secret)
}

/// The JWT secret stored on the system user, when there is a non-empty one.
pub fn stored_jwt_secret(system_user: &Option<crate::models::User>) -> (r: Option<String>)
    ensures
        match *system_user {
            Some(u) => match u.jwt_secret {
                Some(s) => if s@.len() > 0 {
                    r == Some(s)
                } else {
                    r is None
                },
                None => r is None,
            },
            None => r is None,
        },
{
    match system_user {
        Some(u) => match &u.jwt_secret {
            Some(s) => if s.as_str().is_empty() {
                None
            } else {
                Some(s.clone())
            },
            None => None,
        },
        None => None,
    }
}

/// The root secret of the identity key: the dedicated master key when the
/// environment provides one (so the identity does not hang on the JWT
/// secret), the JWT secret otherwise.
pub fn identity_root(master_key: Option<String>, jwt_secret: &str) -> (r: String)
    ensures
        match master_key {
            Some(k) => r == k,
            None => r@ == jwt_secret@,
        },
{
    match master_key {
        Some(k) => k,
        None => String::from_str(jwt_secret),
    }
}

} // verus!
