//! Seeding employees from a CSV file: the six business roles and their
//! shared role packs, usernames derived from e-mails, and the structural
//! checks of the CSV (`email,nombre,rol,perfil,techo_gasto_usd`).
//!
//! The spending cap column is handed on as text: it is a decimal amount,
//! read and checked (not negative) by the binary.

use vstd::prelude::*;

use crate::models::User;

use crate::text::{
    lines, lines_spec, split_fold, split_spec, split_str, str_eq, trim, trim_spec, views, contains_char,
};

verus! {

/// The business roles of the RBAC catalogue.
pub open spec fn is_valid_role(r: Seq<char>) -> bool {
    r == "admin"@ || r == "gerencia"@ || r == "tecnica"@ || r == "comercial"@ || r == "financiera"@
        || r == "ingenieria"@
}

/// Whether `role` is one of the six business roles.
pub fn valid_role(role: &str) -> (r: bool)
    ensures
        r == is_valid_role(role@),
{
    str_eq(role, "admin") || str_eq(role, "gerencia") || str_eq(role, "tecnica") || str_eq(role, "comercial")
        || str_eq(role, "financiera") || str_eq(role, "ingenieria")
}

/// The role pack (agent profile) each role reaches by default; empty for
/// anything that is not a role.
pub open spec fn default_profile(role: Seq<char>) -> Seq<char> {
    if role == "admin"@ {
        "admin"@
    } else if role == "gerencia"@ {
        "gerencia"@
    } else if role == "tecnica"@ {
        "servimec-tko"@
    } else if role == "comercial"@ {
        "comercial"@
    } else if role == "financiera"@ {
        "financiera"@
    } else if role == "ingenieria"@ {
        "ingenieria"@
    } else {
        ""@
    }
}

/// The default role pack of `role` (`""` for an unknown role). A profile in
/// the CSV that differs from it is an exception that gets a direct grant.
pub fn default_profile_for_role(role: &str) -> (r: &'static str)
    ensures
        r@ == default_profile(role@),
{
    if str_eq(role, "admin") {
        "admin"
    } else if str_eq(role, "gerencia") {
        "gerencia"
    } else if str_eq(role, "tecnica") {
        "servimec-tko"
    } else if str_eq(role, "comercial") {
        "comercial"
    } else if str_eq(role, "financiera") {
        "financiera"
    } else if str_eq(role, "ingenieria") {
        "ingenieria"
    } else {
        ""
    }
}

/// The Unicode lowercase of `s`, as `str::to_lowercase` computes it.
pub uninterp spec fn unicode_lowercase(s: Seq<char>) -> Seq<char>;

/// Whether `c` is an ASCII character.
pub open spec fn is_ascii_char(c: char) -> bool {
    (c as int) < 128
}

/// The ASCII lowercase of `c`: `A`-`Z` become `a`-`z`, anything else stays.
pub open spec fn ascii_lower(c: char) -> char {
    if 'A' <= c && c <= 'Z' {
        ((c as int) + 32) as char
    } else {
        c
    }
}

/// `str::to_lowercase`: the Unicode lowercase of `s`. On ASCII text that
/// is the ASCII lowercase (`A`-`Z` map to `a`-`z`; every other ASCII
/// character has no lowercase mapping and stays, as `char::to_lowercase`
/// documents).
#[verifier::external_body]
fn to_lowercase(s: &str) -> (r: String)
    ensures
        r@ == unicode_lowercase(s@),
        (forall|i: int| 0 <= i < s@.len() ==> is_ascii_char(#[trigger] s@[i])) ==> r@ == s@.map_values(
            |c: char| ascii_lower(c),
        ),
{
    s.to_lowercase()
}

/// Whether `c` is an ASCII letter or digit.
pub open spec fn is_ascii_alnum(c: char) -> bool {
    ('a' <= c && c <= 'z') || ('A' <= c && c <= 'Z') || ('0' <= c && c <= '9')
}

/// A character of a username: ASCII letters, digits, `.`, `_` and `-` stay;
/// anything else becomes `_`.
pub open spec fn username_char(c: char) -> char {
    if is_ascii_alnum(c) || c == '.' || c == '_' || c == '-' {
        c
    } else {
        '_'
    }
}

/// The local part of an e-mail: what precedes its first `@` (all of it
/// without one).
pub open spec fn local_part(email: Seq<char>) -> Seq<char> {
    split_spec(email, '@')[0]
}

/// `s` with every character mapped by [`username_char`].
pub open spec fn sanitized(s: Seq<char>) -> Seq<char> {
    s.map_values(|c: char| username_char(c))
}

/// Maps every character of an already lowercased local part to a username
/// character.
pub fn sanitize_username(lowered: &str) -> (r: String)
    ensures
        r@ == sanitized(lowered@),
{
    let v = crate::text::chars_of(lowered);
    let mut out: Vec<char> = Vec::new();
    let mut i: usize = 0;
    while i < v.len()
        invariant
            i <= v@.len(),
            v@ == lowered@,
            out@ == v@.take(i as int).map_values(|c: char| username_char(c)),
        decreases v.len() - i,
    {
        let c = v[i];
        let keep = (c >= 'a' && c <= 'z') || (c >= 'A' && c <= 'Z') || (c >= '0' && c <= '9') || c == '.' || c
            == '_' || c == '-';
        out.push(if keep { c } else { '_' });
        assert(v@.take(i + 1).map_values(|c: char| username_char(c)) =~= v@.take(i as int).map_values(
            |c: char| username_char(c),
        ).push(username_char(v@[i as int])));
        i += 1;
    }
    assert(v@.take(v@.len() as int) =~= v@);
    crate::text::string_from_chars(out.as_slice())
}

/// A stable username derived from an e-mail: its local part, lowercased,
/// with every character other than ASCII letters, digits, `.`, `_` and `-`
/// replaced by `_`. Seeding the same CSV again finds the same user.
pub fn derive_username(email: &str) -> (r: String)
    ensures
        r@ == sanitized(unicode_lowercase(local_part(email@))),
        is_ascii_text(local_part(email@)) ==> r@ == ascii_username(local_part(email@)),
{
    let parts = split_str(email, '@');
    assert(split_spec(email@, '@').len() >= 1);
    assert(views(parts@).len() == parts@.len());
    assert(views(parts@)[0] == parts@[0]@);
    let lowered = to_lowercase(parts[0].as_str());
    let r = sanitize_username(lowered.as_str());
    proof {
        if is_ascii_text(local_part(email@)) {
            assert(r@ =~= ascii_username(local_part(email@)));
        }
    }
    r
}

/// Whether every character of `s` is ASCII.
pub open spec fn is_ascii_text(s: Seq<char>) -> bool {
    forall|i: int| 0 <= i < s.len() ==> is_ascii_char(#[trigger] s[i])
}

/// The username of an ASCII local part: lowercased, then every character
/// other than a letter, digit, `.`, `_` or `-` replaced by `_`.
pub open spec fn ascii_username(s: Seq<char>) -> Seq<char> {
    s.map_values(|c: char| username_char(ascii_lower(c)))
}

/// A character a derived username may hold: a lowercase ASCII letter, a
/// digit, `.`, `_` or `-`.
pub open spec fn is_username_char(c: char) -> bool {
    ('a' <= c && c <= 'z') || ('0' <= c && c <= '9') || c == '.' || c == '_' || c == '-'
}

proof fn lemma_split_without(s: Seq<char>, c: char)
    requires
        !s.contains(c),
    ensures
        split_fold(s, c) == (Seq::<Seq<char>>::empty(), s),
    decreases s.len(),
{
    if s.len() > 0 {
        assert(!s.drop_last().contains(c)) by {
            if s.drop_last().contains(c) {
                let i = choose|i: int| 0 <= i < s.drop_last().len() && s.drop_last()[i] == c;
                assert(s[i] == c);
            }
        }
        lemma_split_without(s.drop_last(), c);
        assert(s.last() == s[s.len() - 1]);
        assert(s.drop_last().push(s.last()) =~= s);
    }
}

/// Deriving is stable on e-mails with an ASCII local part (corporate
/// e-mails): the username holds only lowercase letters, digits, `.`, `_`
/// and `-`, and deriving a username from it gives it back, so seeding the
/// same CSV again looks up the same username.
pub proof fn derived_usernames_are_stable(email: Seq<char>)
    requires
        is_ascii_text(local_part(email)),
    ensures
        forall|i: int|
            0 <= i < ascii_username(local_part(email)).len() ==> is_username_char(
                #[trigger] ascii_username(local_part(email))[i],
            ),
        is_ascii_text(local_part(ascii_username(local_part(email)))),
        ascii_username(local_part(ascii_username(local_part(email)))) == ascii_username(local_part(email)),
{
    let u = ascii_username(local_part(email));
    assert forall|i: int| 0 <= i < u.len() implies is_username_char(#[trigger] u[i]) by {
        let c = local_part(email)[i];
        assert(u[i] == username_char(ascii_lower(c)));
    }
    assert(!u.contains('@')) by {
        if u.contains('@') {
            let i = choose|i: int| 0 <= i < u.len() && u[i] == '@';
            assert(is_username_char(u[i]));
        }
    }
    lemma_split_without(u, '@');
    assert(split_spec(u, '@') =~= seq![u]);
    assert(local_part(u) == u);
    assert forall|i: int| 0 <= i < u.len() implies is_ascii_char(#[trigger] u[i]) by {
        assert(is_username_char(u[i]));
    }
    assert(ascii_username(u) =~= u) by {
        assert forall|i: int| 0 <= i < u.len() implies ascii_username(u)[i] == u[i] by {
            assert(is_username_char(u[i]));
        }
    }
}

// ---------------------------------------------------------------------------
// The CSV
// ---------------------------------------------------------------------------

/// A data line of the CSV that passed the structural checks. The cap is its
/// text; `perfil` is `None` when the column is empty.
#[derive(Debug, Clone)]
pub struct EmployeeRecord {
    /// 1-based line number in the file (the header is line 1).
    pub line_no: usize,
    pub email: String,
    pub nombre: String,
    pub rol: String,
    pub perfil: Option<String>,
    pub techo_gasto_usd: String,
}

/// Why the CSV is refused.
#[derive(Debug, Clone)]
pub enum CsvError {
    /// No line at all.
    Empty,
    /// The header is not `email,nombre,rol,perfil,techo_gasto_usd`; the
    /// columns found.
    BadHeader(Vec<String>),
    /// A line without exactly five columns.
    ColumnCount { line_no: usize, found: usize, line: String },
    /// An empty e-mail or one without `@`.
    InvalidEmail { line_no: usize, email: String },
    /// An empty name.
    EmptyName { line_no: usize },
    /// A role outside the catalogue.
    InvalidRole { line_no: usize, rol: String },
}

/// The records read up to the first refused line, and why it was refused.
#[derive(Debug, Clone)]
pub struct CsvScan {
    pub rows: Vec<EmployeeRecord>,
    pub error: Option<CsvError>,
}

/// The trimmed comma-separated columns of a line.
pub open spec fn columns(line: Seq<char>) -> Seq<Seq<char>> {
    split_spec(line, ',').map_values(|x: Seq<char>| trim_spec(x))
}

/// The expected header.
pub open spec fn expected_header() -> Seq<Seq<char>> {
    seq!["email"@, "nombre"@, "rol"@, "perfil"@, "techo_gasto_usd"@]
}

/// The columns of the header line.
pub open spec fn header_columns(line: Seq<char>) -> Seq<Seq<char>> {
    columns(trim_spec(line))
}

/// Whether a line is blank (skipped).
pub open spec fn is_blank(line: Seq<char>) -> bool {
    trim_spec(line).len() == 0
}

/// Whether a non-blank line passes the structural checks.
pub open spec fn line_ok(line: Seq<char>) -> bool {
    let cols = columns(line);
    &&& cols.len() == 5
    &&& cols[0].len() > 0 && cols[0].contains('@')
    &&& cols[1].len() > 0
    &&& is_valid_role(cols[2])
}

/// Whether `e` is the error of the refused line `line` (number `line_no`).
pub open spec fn error_of_line(e: CsvError, line_no: int, line: Seq<char>) -> bool {
    let cols = columns(line);
    if cols.len() != 5 {
        e matches CsvError::ColumnCount { line_no: n, found, line: l } && n == line_no && found == cols.len()
            && l@ == line
    } else if !(cols[0].len() > 0 && cols[0].contains('@')) {
        e matches CsvError::InvalidEmail { line_no: n, email } && n == line_no && email@ == cols[0]
    } else if cols[1].len() == 0 {
        e matches CsvError::EmptyName { line_no: n } && n == line_no
    } else {
        e matches CsvError::InvalidRole { line_no: n, rol } && n == line_no && rol@ == cols[2]
    }
}

/// Whether `r` is the record of the accepted line `line` (number
/// `line_no`).
pub open spec fn record_of_line(r: EmployeeRecord, line_no: int, line: Seq<char>) -> bool {
    let cols = columns(line);
    &&& r.line_no == line_no
    &&& r.email@ == cols[0]
    &&& r.nombre@ == cols[1]
    &&& r.rol@ == cols[2]
    &&& (if cols[3].len() == 0 {
        r.perfil is None
    } else {
        r.perfil matches Some(p) && p@ == cols[3]
    })
    &&& r.techo_gasto_usd@ == cols[4]
}

/// The first data line, from index `k` on, that is refused.
pub open spec fn first_refused_from(ls: Seq<Seq<char>>, k: int) -> Option<int>
    decreases ls.len() - k,
{
    if k < 0 || k >= ls.len() {
        None
    } else if !is_blank(ls[k]) && !line_ok(ls[k]) {
        Some(k)
    } else {
        first_refused_from(ls, k + 1)
    }
}

/// The indices of the accepted (non-blank) lines of `ls` in `[from, to)`.
pub open spec fn accepted_between(ls: Seq<Seq<char>>, from: int, to: int) -> Seq<int>
    decreases to - from,
{
    if to <= from {
        Seq::empty()
    } else if !is_blank(ls[to - 1]) {
        accepted_between(ls, from, to - 1).push(to - 1)
    } else {
        accepted_between(ls, from, to - 1)
    }
}

/// Whether `rows` are the records of the accepted lines of `ls` in
/// `[1, to)`, in order.
pub open spec fn records_up_to(rows: Seq<EmployeeRecord>, ls: Seq<Seq<char>>, to: int) -> bool {
    let idx = accepted_between(ls, 1, to);
    &&& rows.len() == idx.len()
    &&& forall|j: int| 0 <= j < idx.len() ==> record_of_line(#[trigger] rows[j], idx[j] + 1, ls[idx[j]])
}

fn columns_of(line: &str) -> (r: Vec<String>)
    ensures
        views(r@) == columns(line@),
{
    let parts = split_str(line, ',');
    let mut r: Vec<String> = Vec::new();
    let mut i: usize = 0;
    while i < parts.len()
        invariant
            i <= parts@.len(),
            views(parts@) == split_spec(line@, ','),
            views(r@) == split_spec(line@, ',').take(i as int).map_values(|x: Seq<char>| trim_spec(x)),
        decreases parts.len() - i,
    {
        let t = trim(parts[i].as_str());
        proof {
            assert(views(parts@)[i as int] == parts@[i as int]@);
            assert(views(r@.push(t)) =~= views(r@).push(t@));
            assert(split_spec(line@, ',').take(i + 1).map_values(|x: Seq<char>| trim_spec(x)) =~= split_spec(
                line@,
                ',',
            ).take(i as int).map_values(|x: Seq<char>| trim_spec(x)).push(trim_spec(split_spec(line@, ',')[i as int])));
        }
        r.push(t);
        i += 1;
    }
    assert(split_spec(line@, ',').take(parts@.len() as int) =~= split_spec(line@, ','));
    r
}

fn header_matches(cols: &Vec<String>) -> (r: bool)
    ensures
        r == (views(cols@) == expected_header()),
{
    assert(expected_header().len() == 5);
    assert(views(cols@).len() == cols@.len());
    if cols.len() != 5 {
        return false;
    }
    let ok = str_eq(cols[0].as_str(), "email") && str_eq(cols[1].as_str(), "nombre") && str_eq(
        cols[2].as_str(),
        "rol",
    ) && str_eq(cols[3].as_str(), "perfil") && str_eq(cols[4].as_str(), "techo_gasto_usd");
    proof {
        let e = expected_header();
        if ok {
            assert(views(cols@) =~= e);
        } else if views(cols@) == e {
            assert(views(cols@)[0] == cols@[0]@);
            assert(views(cols@)[1] == cols@[1]@);
            assert(views(cols@)[2] == cols@[2]@);
            assert(views(cols@)[3] == cols@[3]@);
            assert(views(cols@)[4] == cols@[4]@);
        }
    }
    ok
}

/// Checks one non-blank data line: its record, or its error.
fn check_line(line_no: usize, line: &str) -> (r: Result<EmployeeRecord, CsvError>)
    ensures
        match r {
            Ok(rec) => line_ok(line@) && record_of_line(rec, line_no as int, line@),
            Err(e) => !line_ok(line@) && error_of_line(e, line_no as int, line@),
        },
{
    let cols = columns_of(line);
    proof {
        if cols@.len() == 5 {
            assert(views(cols@)[0] == cols@[0]@);
            assert(views(cols@)[1] == cols@[1]@);
            assert(views(cols@)[2] == cols@[2]@);
            assert(views(cols@)[3] == cols@[3]@);
            assert(views(cols@)[4] == cols@[4]@);
        }
    }
    if cols.len() != 5 {
        return Err(CsvError::ColumnCount { line_no, found: cols.len(), line: String::from_str(line) });
    }
    let email = cols[0].clone();
    if email.as_str().is_empty() || !contains_char(email.as_str(), '@') {
        return Err(CsvError::InvalidEmail { line_no, email });
    }
    let nombre = cols[1].clone();
    if nombre.as_str().is_empty() {
        return Err(CsvError::EmptyName { line_no });
    }
    let rol = cols[2].clone();
    if !valid_role(rol.as_str()) {
        return Err(CsvError::InvalidRole { line_no, rol });
    }
    let perfil = if cols[3].as_str().is_empty() {
        None
    } else {
        Some(cols[3].clone())
    };
    Ok(EmployeeRecord { line_no, email, nombre, rol, perfil, techo_gasto_usd: cols[4].clone() })
}

/// Reads the employee CSV: the header must be exactly
/// `email,nombre,rol,perfil,techo_gasto_usd`; blank lines are skipped; each
/// data line needs five columns, an e-mail with `@`, a name and a known
/// role. Returns the records of the lines before the first refused one, and
/// that line's error.
#[verifier::loop_isolation(false)]
pub fn scan_csv(content: &str) -> (r: CsvScan)
    ensures
        lines_spec(content@).len() == 0 ==> r.rows@.len() == 0 && r.error matches Some(CsvError::Empty),
        lines_spec(content@).len() > 0 && header_columns(lines_spec(content@)[0]) != expected_header() ==> r.rows@.len()
            == 0 && (r.error matches Some(CsvError::BadHeader(cols)) && views(cols@) == header_columns(
            lines_spec(content@)[0],
        )),
        lines_spec(content@).len() > 0 && header_columns(lines_spec(content@)[0]) == expected_header() ==> match first_refused_from(
            lines_spec(content@),
            1,
        ) {
            Some(k) => records_up_to(r.rows@, lines_spec(content@), k) && (r.error matches Some(e) && error_of_line(
                e,
                k + 1,
                lines_spec(content@)[k],
            )),
            None => records_up_to(r.rows@, lines_spec(content@), lines_spec(content@).len() as int) && r.error is None,
        },
{
    let ls = lines(content);
    let ghost spec_lines = lines_spec(content@);
    assert(forall|k: int| 0 <= k < ls@.len() ==> #[trigger] ls@[k]@ == spec_lines[k]) by {
        assert forall|k: int| 0 <= k < ls@.len() implies #[trigger] ls@[k]@ == spec_lines[k] by {
            assert(views(ls@)[k] == ls@[k]@);
        }
    }
    if ls.len() == 0 {
        return CsvScan { rows: Vec::new(), error: Some(CsvError::Empty) };
    }
    let header_trimmed = trim(ls[0].as_str());
    let header = columns_of(header_trimmed.as_str());
    if !header_matches(&header) {
        return CsvScan { rows: Vec::new(), error: Some(CsvError::BadHeader(header)) };
    }
    let mut rows: Vec<EmployeeRecord> = Vec::new();
    let mut k: usize = 1;
    while k < ls.len()
        invariant
            1 <= k <= ls@.len(),
            ls@.len() == spec_lines.len(),
            forall|q: int| 0 <= q < ls@.len() ==> #[trigger] ls@[q]@ == spec_lines[q],
            first_refused_from(spec_lines, 1) == first_refused_from(spec_lines, k as int),
            records_up_to(rows@, spec_lines, k as int),
        decreases ls.len() - k,
    {
        let line = ls[k].as_str();
        assert(line@ == spec_lines[k as int]);
        if trim(line).as_str().is_empty() {
            proof {
                assert(accepted_between(spec_lines, 1, k + 1) == accepted_between(spec_lines, 1, k as int));
            }
        } else {
            match check_line(k + 1, line) {
                Ok(rec) => {
                    proof {
                        let idx = accepted_between(spec_lines, 1, k as int);
                        assert(accepted_between(spec_lines, 1, k + 1) == idx.push(k as int));
                        assert forall|j: int| 0 <= j < idx.len() + 1 implies record_of_line(
                            #[trigger] rows@.push(rec)[j],
                            idx.push(k as int)[j] + 1,
                            spec_lines[idx.push(k as int)[j]],
                        ) by {
                            if j < idx.len() {
                                assert(rows@.push(rec)[j] == rows@[j]);
                                assert(idx.push(k as int)[j] == idx[j]);
                            }
                        }
                    }
                    rows.push(rec);
                },
                Err(e) => {
                    return CsvScan { rows, error: Some(e) };
                },
            }
        }
        k += 1;
    }
    CsvScan { rows, error: None }
}

/// A derived username holds only ASCII letters and digits, `.`, `_` and `-`.
pub proof fn usernames_use_safe_characters(email: Seq<char>, i: int)
    requires
        0 <= i < sanitized(unicode_lowercase(local_part(email))).len(),
    ensures
        ({
            let c = sanitized(unicode_lowercase(local_part(email)))[i];
            is_ascii_alnum(c) || c == '.' || c == '_' || c == '-'
        }),
{
}

/// Whether a seeded employee gets a direct grant on the CSV's profile: it
/// names one and it is not the default role pack of the employee's role.
pub fn needs_direct_grant(perfil: Option<&str>, rol: &str) -> (r: bool)
    ensures
        r == (perfil matches Some(p) && p@ != default_profile(rol@)),
{
    match perfil {
        Some(p) => !str_eq(p, default_profile_for_role(rol)),
        None => false,
    }
}

/// The characters a temporary password is drawn from (no `I`, `O`, `l`,
/// `0` or `1`, which read alike).
pub const PASSWORD_CHARSET: &'static str = "ABCDEFGHJKLMNPQRSTUVWXYZabcdefghijkmnopqrstuvwxyz23456789!@#$%";

/// The length of a temporary password.
pub const TEMP_PASSWORD_LEN: usize = 16;

/// The seed of a temporary password: the time of the run, in nanoseconds,
/// mixed with the process id shifted into the high half.
pub open spec fn password_seed_spec(nanos: u128, pid: u32) -> u128 {
    nanos ^ ((pid as u128) << 64u128)
}

/// One step of the 128-bit linear congruential generator (multiplier
/// 6364136223846793005, increment 1442695040888963407, both wrapping).
pub open spec fn lcg_next(s: u128) -> u128 {
    vstd::wrapping::u128_specs::wrapping_add(
        vstd::wrapping::u128_specs::wrapping_mul(s, 6364136223846793005u128),
        1442695040888963407u128,
    )
}

/// The generator's state after `k` steps from `seed`.
pub open spec fn lcg_state(seed: u128, k: nat) -> u128
    decreases k,
{
    if k == 0 {
        seed
    } else {
        lcg_next(lcg_state(seed, (k - 1) as nat))
    }
}

/// The character a state picks: its high half, modulo the charset's size.
pub open spec fn password_char(s: u128) -> char {
    PASSWORD_CHARSET@[((s >> 64u128) % 62) as int]
}

/// The temporary password of `seed`: the characters picked by the first
/// sixteen states after it.
pub open spec fn temp_password(seed: u128) -> Seq<char> {
    Seq::new(TEMP_PASSWORD_LEN as nat, |i: int| password_char(lcg_state(seed, (i + 1) as nat)))
}

/// The seed of a temporary password from the run's time and process id.
pub fn password_seed(nanos: u128, pid: u32) -> (r: u128)
    ensures
        r == password_seed_spec(nanos, pid),
{
    nanos ^ ((pid as u128) << 64u128)
}

/// The temporary password of a new employee, from its seed. It is not
/// drawn from a cryptographic generator: it is used once and then changed.
pub fn temp_password_from_seed(seed: u128) -> (r: String)
    ensures
        r@ == temp_password(seed),
        r@.len() == TEMP_PASSWORD_LEN,
{
    proof {
        reveal_strlit("ABCDEFGHJKLMNPQRSTUVWXYZabcdefghijkmnopqrstuvwxyz23456789!@#$%");
    }
    let charset = crate::text::chars_of(PASSWORD_CHARSET);
    assert(charset@.len() == 62);
    let mut out = String::new();
    let mut state: u128 = seed;
    let mut k: usize = 0;
    while k < TEMP_PASSWORD_LEN
        invariant
            k <= TEMP_PASSWORD_LEN,
            charset@ == PASSWORD_CHARSET@,
            charset@.len() == 62,
            state == lcg_state(seed, k as nat),
            out@ == temp_password(seed).take(k as int),
        decreases TEMP_PASSWORD_LEN - k,
    {
        state = state.wrapping_mul(6364136223846793005u128).wrapping_add(1442695040888963407u128);
        assert(state == lcg_state(seed, (k + 1) as nat));
        let high: u128 = state >> 64u128;
        let idx: usize = (high % 62) as usize;
        let c = charset[idx];
        assert(c == password_char(state));
        crate::text::push_char(&mut out, c);
        assert(temp_password(seed).take(k + 1) =~= temp_password(seed).take(k as int).push(c));
        k += 1;
    }
    assert(temp_password(seed).take(TEMP_PASSWORD_LEN as int) =~= temp_password(seed));
    out
}

// ---------------------------------------------------------------------------
// Seeding one row
// ---------------------------------------------------------------------------

/// The username seeding derives for an e-mail.
pub open spec fn seed_username(email: Seq<char>) -> Seq<char> {
    sanitized(unicode_lowercase(local_part(email)))
}

/// Whether `u` has the e-mail `email`.
pub open spec fn has_email(u: User, email: Seq<char>) -> bool {
    u.email matches Some(e) && e@ == email
}

/// The index of the first of `users`, from `i` on, with the e-mail `email`.
pub open spec fn first_with_email_from(users: Seq<User>, email: Seq<char>, i: int) -> Option<int>
    decreases users.len() - i,
{
    if i < 0 || i >= users.len() {
        None
    } else if has_email(users[i], email) {
        Some(i)
    } else {
        first_with_email_from(users, email, i + 1)
    }
}

/// The account a CSV row is seeded into: the id of an existing user, or
/// `None` for a new one.
pub open spec fn seed_account(email: Seq<char>, by_username: Option<User>, users: Seq<User>) -> Option<Seq<char>> {
    match by_username {
        Some(u) => Some(u.id@),
        None => match first_with_email_from(users, email, 0) {
            Some(i) => Some(users[i].id@),
            None => None,
        },
    }
}

/// Which account a CSV row is seeded into.
#[derive(Debug, Clone, PartialEq, Eq)]
pub enum SeedUserChoice {
    /// The user with this id already exists: nothing is created.
    Existing(String),
    /// A new `member` with this username (and a temporary password).
    Create { username: String },
}

/// The account of a CSV row with e-mail `email`: the user found under the
/// derived username; else the first of `users` (every account, looked up
/// only when the username found nobody) with that e-mail; else a new user
/// with the derived username. Running the seed again therefore finds the
/// accounts it created, and never creates a second one.
pub fn choose_seed_user(email: &str, by_username: Option<&User>, users: &Vec<User>) -> (r: SeedUserChoice)
    ensures
        match seed_account(
            email@,
            match by_username {
                Some(u) => Some(*u),
                None => None,
            },
            users@,
        ) {
            Some(id) => r matches SeedUserChoice::Existing(e) && e@ == id,
            None => r matches SeedUserChoice::Create { username } && username@ == seed_username(email@),
        },
{
    match by_username {
        Some(u) => SeedUserChoice::Existing(u.id.clone()),
        None => {
            let mut i: usize = 0;
            while i < users.len()
                invariant
                    i <= users@.len(),
                    by_username is None,
                    first_with_email_from(users@, email@, 0) == first_with_email_from(users@, email@, i as int),
                decreases users.len() - i,
            {
                let matches = match &users[i].email {
                    Some(e) => str_eq(e.as_str(), email),
                    None => false,
                };
                if matches {
                    assert(has_email(users@[i as int], email@));
                    let id = users[i].id.clone();
                    assert(id@ == users@[i as int].id@);
                    return SeedUserChoice::Existing(id);
                }
                i += 1;
            }
            SeedUserChoice::Create { username: derive_username(email) }
        },
    }
}

/// A step of seeding a row into an account, after the account is known.
#[derive(Debug, Clone, PartialEq, Eq)]
pub enum SeedStep {
    /// Give the user this business role (idempotent).
    AssignRole { user_id: String, role: String },
    /// Set the user's monthly spending limit from the row's cap.
    SetLimit { user_id: String },
    /// Grant the user read access to the agent profile with this name.
    DirectGrant { user_id: String, profile: String },
}

/// What seeding does to the account `user_id` of `row`: assign the row's
/// role, set its spending limit, and grant its profile directly when it is
/// not the role's default role pack; in that order.
pub fn seed_row_steps(row: &EmployeeRecord, user_id: &str) -> (r: Vec<SeedStep>)
    ensures
        r@.len() == if row.perfil matches Some(p) && p@ != default_profile(row.rol@) {
            3int
        } else {
            2int
        },
        r@[0] matches SeedStep::AssignRole { user_id: u, role } && u@ == user_id@ && role@ == row.rol@,
        r@[1] matches SeedStep::SetLimit { user_id: u } && u@ == user_id@,
        r@.len() == 3 ==> (r@[2] matches SeedStep::DirectGrant { user_id: u, profile } && u@ == user_id@
            && (row.perfil matches Some(p) && profile@ == p@)),
{
    let mut r: Vec<SeedStep> = Vec::new();
    r.push(SeedStep::AssignRole { user_id: String::from_str(user_id), role: row.rol.clone() });
    r.push(SeedStep::SetLimit { user_id: String::from_str(user_id) });
    let grant = match &row.perfil {
        Some(p) => needs_direct_grant(Some(p.as_str()), row.rol.as_str()),
        None => false,
    };
    if grant {
        match &row.perfil {
            Some(p) => {
                r.push(SeedStep::DirectGrant { user_id: String::from_str(user_id), profile: p.clone() });
            },
            None => {},
        }
    }
    r
}

/// Seeding is idempotent: once a row's account exists, under the derived
/// username or with the row's e-mail, seeding the row again chooses an
/// existing account and creates none.
pub proof fn reseeding_finds_the_account(email: Seq<char>, by_username: Option<User>, users: Seq<User>, i: int)
    requires
        by_username is Some || (0 <= i < users.len() && has_email(users[i], email)),
    ensures
        seed_account(email, by_username, users) is Some,
{
    if by_username is None {
        lemma_first_with_email(users, email, 0, i);
    }
}

proof fn lemma_first_with_email(users: Seq<User>, email: Seq<char>, from: int, i: int)
    requires
        0 <= from <= i < users.len(),
        has_email(users[i], email),
    ensures
        first_with_email_from(users, email, from) is Some,
    decreases i - from,
{
    if !has_email(users[from], email) {
        lemma_first_with_email(users, email, from + 1, i);
    }
}

} // verus!
