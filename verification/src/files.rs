//! Path checks of the file API: upload names, traversal, per-user sandbox.

use vstd::prelude::*;

use crate::crypto::{base64_encode, base64_encoding};
use crate::errors::ApiError;
use crate::text::{chars_of, string_from_chars, trim_chars, trim_spec};

verus! {

/// Sub-tree of files the request's user may touch. `None` is local
/// single-user mode: no per-user restriction.
#[derive(Debug, Clone, Default)]
pub struct UserFileScope(pub Option<String>);

/// A path separator for upload names and traversal checks.
pub open spec fn is_sep(c: char) -> bool {
    c == '/' || c == '\\'
}

/// Index just after the last separator of `s`, 0 when there is none.
pub open spec fn after_last_sep(s: Seq<char>) -> int
    decreases s.len(),
{
    if s.len() == 0 {
        0
    } else if is_sep(s.last()) {
        s.len() as int
    } else {
        after_last_sep(s.drop_last())
    }
}

/// The last component of `s` (what follows its last `/` or `\`).
pub open spec fn last_component(s: Seq<char>) -> Seq<char> {
    s.skip(after_last_sep(s))
}

/// The sanitized upload name: trim, keep only the last component, trim again;
/// `None` when nothing is left.
pub open spec fn sanitized_upload_name(raw: Seq<char>) -> Option<Seq<char>> {
    let t = trim_spec(raw);
    if t.len() == 0 {
        None
    } else {
        let last = trim_spec(last_component(t));
        if last.len() == 0 {
            None
        } else {
            Some(last)
        }
    }
}

proof fn lemma_after_last_sep(s: Seq<char>)
    ensures
        0 <= after_last_sep(s) <= s.len(),
        forall|i: int| after_last_sep(s) <= i < s.len() ==> !is_sep(#[trigger] s[i]),
        after_last_sep(s) > 0 ==> is_sep(s[after_last_sep(s) - 1]),
    decreases s.len(),
{
    if s.len() > 0 && !is_sep(s.last()) {
        lemma_after_last_sep(s.drop_last());
        assert forall|i: int| after_last_sep(s) <= i < s.len() implies !is_sep(#[trigger] s[i]) by {
            if i < s.len() - 1 {
                assert(s[i] == s.drop_last()[i]);
            }
        }
    }
}

/// Index just after the last separator of `v[..end]`.
fn find_after_last_sep(v: &[char], end: usize) -> (r: usize)
    requires
        end <= v@.len(),
    ensures
        r == after_last_sep(v@.take(end as int)),
    decreases end,
{
    if end == 0 {
        0
    } else if v[end - 1] == '/' || v[end - 1] == '\\' {
        end
    } else {
        assert(v@.take(end as int).drop_last() =~= v@.take(end - 1));
        find_after_last_sep(v, end - 1)
    }
}

/// Strips any directory component from an upload file name and rejects empty
/// results. The returned name holds no path separator.
pub fn sanitize_upload_filename(raw: &str) -> (r: Option<String>)
    ensures
        match r {
            Some(name) => sanitized_upload_name(raw@) == Some(name@),
            None => sanitized_upload_name(raw@) is None,
        },
        r matches Some(name) ==> !name@.contains('/') && !name@.contains('\\'),
{
    let v = chars_of(raw);
    let t = trim_chars(v.as_slice());
    if t.len() == 0 {
        return None;
    }
    let start = find_after_last_sep(t.as_slice(), t.len());
    assert(t@.take(t@.len() as int) =~= t@);
    proof {
        lemma_after_last_sep(t@);
    }
    let last = vstd::slice::slice_subrange(t.as_slice(), start, t.len());
    assert(last@ =~= last_component(t@));
    let trimmed = trim_chars(last);
    if trimmed.len() == 0 {
        return None;
    }
    proof {
        crate::text::lemma_trim_infix(last@);
        let k = crate::text::leading_ws(last@) as int;
        assert forall|i: int| 0 <= i < trimmed@.len() implies !is_sep(trimmed@[i]) by {
            assert(trimmed@[i] == last@[k + i]);
            assert(last@[k + i] == t@[start + k + i]);
        }
    }
    Some(string_from_chars(trimmed.as_slice()))
}

/// Whether a `..` component of `s` starts at index `i`.
pub open spec fn parent_component_at(s: Seq<char>, i: int) -> bool {
    0 <= i && i + 2 <= s.len() && s[i] == '.' && s[i + 1] == '.' && (i == 0 || is_sep(s[i - 1])) && (i + 2
        == s.len() || is_sep(s[i + 2]))
}

/// Whether `s` has a `..` component (between separators or the ends).
pub open spec fn has_parent_component(s: Seq<char>) -> bool {
    exists|i: int| #[trigger] parent_component_at(s, i)
}

/// A path with a `..` component or a NUL character, either of which could
/// escape a sub-tree.
pub open spec fn has_traversal_spec(s: Seq<char>) -> bool {
    s.contains('\0') || has_parent_component(s)
}

/// Whether `path` holds a `..` component or a NUL character.
pub fn has_traversal(path: &str) -> (r: bool)
    ensures
        r == has_traversal_spec(path@),
{
    let v = chars_of(path);
    let n = v.len();
    let mut i: usize = 0;
    while i < n
        invariant
            n == v@.len(),
            v@ == path@,
            i <= n,
            forall|j: int| 0 <= j < i ==> v@[j] != '\0',
            forall|j: int| 0 <= j < i ==> !#[trigger] parent_component_at(path@, j),
        decreases n - i,
    {
        if v[i] == '\0' {
            assert(path@[i as int] == '\0');
            return true;
        }
        if n - i >= 2 && v[i] == '.' && v[i + 1] == '.' && (i == 0 || v[i - 1] == '/' || v[i - 1] == '\\')
            && (n - i == 2 || v[i + 2] == '/' || v[i + 2] == '\\') {
            assert(parent_component_at(path@, i as int));
            return true;
        }
        i += 1;
    }
    assert(!path@.contains('\0'));
    assert(!has_parent_component(path@)) by {
        if exists|j: int| #[trigger] parent_component_at(path@, j) {
            let j = choose|j: int| #[trigger] parent_component_at(path@, j);
            assert(0 <= j < n);
        }
    }
    false
}

/// The message of a rejected workspace-relative path.
pub open spec fn invalid_file_path_message(file_path: Seq<char>) -> Seq<char> {
    "invalid file_path '"@ + file_path + "'"@
}

/// Rejects a workspace-relative `file_path` with traversal (`..`) or NUL, which
/// could otherwise escape the user's sub-tree.
pub fn enforce_no_traversal(file_path: &str) -> (r: Result<(), ApiError>)
    ensures
        has_traversal_spec(file_path@) ==> (r matches Err(ApiError::BadRequest(m)) && m@
            == invalid_file_path_message(file_path@)),
        !has_traversal_spec(file_path@) ==> r is Ok,
{
    if has_traversal(file_path) {
        let mut m = String::from_str("invalid file_path '");
        m.append(file_path);
        m.append("'");
        return Err(ApiError::BadRequest(m));
    }
    Ok(())
}

/// `s` without its leading `/` characters (`trim_start_matches('/')`).
pub open spec fn strip_leading_slashes(s: Seq<char>) -> Seq<char>
    decreases s.len(),
{
    if s.len() > 0 && s[0] == '/' {
        strip_leading_slashes(s.drop_first())
    } else {
        s
    }
}

fn strip_slashes_from(v: &[char], i: usize) -> (r: usize)
    requires
        i <= v@.len(),
    ensures
        i <= r <= v@.len(),
        v@.skip(r as int) == strip_leading_slashes(v@.skip(i as int)),
    decreases v@.len() - i,
{
    if i < v.len() && v[i] == '/' {
        assert(v@.skip(i as int).drop_first() =~= v@.skip(i + 1));
        strip_slashes_from(v, i + 1)
    } else {
        i
    }
}

/// The relative directory a mkdir request names: trimmed, leading `/` removed.
pub open spec fn mkdir_relative(path: Seq<char>) -> Seq<char> {
    strip_leading_slashes(trim_spec(path))
}

/// Checks a mkdir path under the caller's sandbox root: returns the relative
/// path to create, or the error the request gets. Empty paths are a bad
/// request; a path with traversal is outside the sandbox (field `path`,
/// operation `mkdir`). Canonical containment is checked again after creation,
/// by the caller, against the file system.
pub fn check_mkdir_path(relative_path: &str) -> (r: Result<String, ApiError>)
    ensures
        mkdir_relative(relative_path@).len() == 0 ==> (r matches Err(ApiError::BadRequest(m)) && m@
            == "mkdir path must not be empty"@),
        mkdir_relative(relative_path@).len() > 0 && has_traversal_spec(mkdir_relative(relative_path@))
            ==> (r matches Err(ApiError::PathOutsideSandbox { message, field, operation }) && message@ == "path '"@
            + relative_path@ + "' attempts to escape the user sandbox"@ && field.is_some()
            && field.unwrap()@ == "path"@ && operation.is_some() && operation.unwrap()@ == "mkdir"@),
        mkdir_relative(relative_path@).len() > 0 && !has_traversal_spec(mkdir_relative(relative_path@))
            ==> (r matches Ok(rel) && rel@ == mkdir_relative(relative_path@)),
{
    let v = chars_of(relative_path);
    let t = trim_chars(v.as_slice());
    let start = strip_slashes_from(t.as_slice(), 0);
    assert(t@.skip(0) =~= t@);
    let rel_chars = vstd::slice::slice_subrange(t.as_slice(), start, t.len());
    assert(rel_chars@ =~= t@.skip(start as int));
    let rel = string_from_chars(rel_chars);
    if rel_chars.len() == 0 {
        return Err(ApiError::BadRequest(String::from_str("mkdir path must not be empty")));
    }
    if has_traversal(rel.as_str()) {
        let mut message = String::from_str("path '");
        message.append(relative_path);
        message.append("' attempts to escape the user sandbox");
        return Err(
            ApiError::PathOutsideSandbox {
                message,
                field: Some(String::from_str("path")),
                operation: Some(String::from_str("mkdir")),
            },
        );
    }
    Ok(rel)
}

/// The name an upload is stored under: the sanitized `file_name` field, else
/// the sanitized multipart file name; 400 when neither is usable.
pub fn upload_file_name(file_name: Option<String>, dispo_file_name: Option<String>) -> (r: Result<String, ApiError>)
    ensures
        file_name matches Some(n) ==> r == Ok::<String, ApiError>(n),
        file_name is None ==> (dispo_file_name matches Some(n) ==> r == Ok::<String, ApiError>(n)),
        file_name is None && dispo_file_name is None ==> (r matches Err(ApiError::BadRequest(m)) && m@
            == "missing file name: provide 'file_name' or a multipart filename"@),
{
    match file_name {
        Some(n) => Ok(n),
        None => match dispo_file_name {
            Some(n) => Ok(n),
            None => Err(
                ApiError::BadRequest(
                    String::from_str("missing file name: provide 'file_name' or a multipart filename"),
                ),
            ),
        },
    }
}

/// The conversation of an upload: the trimmed field, `None` when blank.
pub fn upload_conversation_id(text: &str) -> (r: Option<String>)
    ensures
        trim_spec(text@).len() == 0 ==> r is None,
        trim_spec(text@).len() > 0 ==> (r matches Some(c) && c@ == trim_spec(text@)),
{
    let t = crate::text::trim(text);
    if t.as_str().is_empty() {
        None
    } else {
        Some(t)
    }
}

/// Whether a browse request lists files too (`show_files` is `true` or `1`).
pub fn browse_show_files(flag: Option<&str>) -> (r: bool)
    ensures
        r == (flag matches Some(f) && (f@ == "true"@ || f@ == "1"@)),
{
    match flag {
        Some(f) => crate::text::str_eq(f, "true") || crate::text::str_eq(f, "1"),
        None => false,
    }
}

/// How an upload request uses a multipart field, by the field's name.
#[derive(Debug, Clone, Copy, PartialEq, Eq, Structural)]
pub enum UploadField {
    /// `file`: the content, with the multipart file name.
    File,
    /// `file_name`: the name to store the upload under.
    FileName,
    /// `conversation_id`: the conversation the upload belongs to.
    ConversationId,
    /// Any other field (or one without a name): skipped.
    Ignored,
}

/// The use of a field named `name`.
pub open spec fn upload_field_spec(name: Option<Seq<char>>) -> UploadField {
    match name {
        Some(n) => if n == "file"@ {
            UploadField::File
        } else if n == "file_name"@ {
            UploadField::FileName
        } else if n == "conversation_id"@ {
            UploadField::ConversationId
        } else {
            UploadField::Ignored
        },
        None => UploadField::Ignored,
    }
}

/// The text of an optional string.
pub open spec fn opt_view(o: Option<String>) -> Option<Seq<char>> {
    match o {
        Some(s) => Some(s@),
        None => None,
    }
}

/// The use of a multipart field named `name`.
pub fn upload_field(name: Option<&str>) -> (r: UploadField)
    ensures
        r == upload_field_spec(match name {
            Some(n) => Some(n@),
            None => None,
        }),
{
    match name {
        Some(n) => if crate::text::str_eq(n, "file") {
            UploadField::File
        } else if crate::text::str_eq(n, "file_name") {
            UploadField::FileName
        } else if crate::text::str_eq(n, "conversation_id") {
            UploadField::ConversationId
        } else {
            UploadField::Ignored
        },
        None => UploadField::Ignored,
    }
}

/// An upload ready to be stored.
#[derive(Debug, Clone, PartialEq, Eq)]
pub struct Upload {
    pub file_data: Vec<u8>,
    pub file_name: String,
    pub conversation_id: Option<String>,
}

/// The fields of an upload request read so far. The request is read field
/// by field, in order, and each field updates the form; a later field of
/// the same kind replaces an earlier one, except that a `file_name` or
/// `conversation_id` that is blank once cleaned leaves the form as it was.
#[derive(Debug, Clone)]
pub struct UploadForm {
    pub file_data: Option<Vec<u8>>,
    /// The sanitized `file_name` field.
    pub file_name: Option<String>,
    /// The sanitized multipart file name of the `file` field.
    pub dispo_file_name: Option<String>,
    /// The trimmed `conversation_id` field.
    pub conversation_id: Option<String>,
}

impl UploadForm {
    /// A form with no field read.
    pub fn new() -> (r: UploadForm)
        ensures
            r.file_data is None,
            r.file_name is None,
            r.dispo_file_name is None,
            r.conversation_id is None,
    {
        UploadForm { file_data: None, file_name: None, dispo_file_name: None, conversation_id: None }
    }

    /// Reads a `file` field: its content, and its multipart file name
    /// sanitized (`None` when it has none or nothing is left of it).
    pub fn take_file(&mut self, dispo_file_name: Option<&str>, data: Vec<u8>)
        ensures
            final(self).file_data matches Some(d) && d@ == data@,
            opt_view(final(self).dispo_file_name) == match dispo_file_name {
                Some(n) => sanitized_upload_name(n@),
                None => None,
            },
            final(self).file_name == old(self).file_name,
            final(self).conversation_id == old(self).conversation_id,
    {
        self.dispo_file_name = match dispo_file_name {
            Some(n) => sanitize_upload_filename(n),
            None => None,
        };
        self.file_data = Some(data);
    }

    /// Reads a `file_name` field: its sanitized value replaces the name,
    /// unless nothing is left of it.
    pub fn take_file_name(&mut self, text: &str)
        ensures
            sanitized_upload_name(text@) is Some ==> opt_view(final(self).file_name) == sanitized_upload_name(
                text@,
            ),
            sanitized_upload_name(text@) is None ==> final(self).file_name == old(self).file_name,
            final(self).file_data == old(self).file_data,
            final(self).dispo_file_name == old(self).dispo_file_name,
            final(self).conversation_id == old(self).conversation_id,
    {
        match sanitize_upload_filename(text) {
            Some(n) => {
                self.file_name = Some(n);
            },
            None => {},
        }
    }

    /// Reads a `conversation_id` field: its trimmed value replaces the
    /// conversation, unless it is blank.
    pub fn take_conversation_id(&mut self, text: &str)
        ensures
            trim_spec(text@).len() > 0 ==> opt_view(final(self).conversation_id) == Some(trim_spec(text@)),
            trim_spec(text@).len() == 0 ==> final(self).conversation_id == old(self).conversation_id,
            final(self).file_data == old(self).file_data,
            final(self).file_name == old(self).file_name,
            final(self).dispo_file_name == old(self).dispo_file_name,
    {
        match upload_conversation_id(text) {
            Some(c) => {
                self.conversation_id = Some(c);
            },
            None => {},
        }
    }

    /// The upload the form describes: 400 without a `file` field, then 400
    /// without a usable name (the `file_name` field wins over the multipart
    /// file name).
    pub fn finish(self) -> (r: Result<Upload, ApiError>)
        ensures
            self.file_data is None ==> (r matches Err(ApiError::BadRequest(m)) && m@ == "missing 'file' field"@),
            self.file_data is Some && self.file_name is None && self.dispo_file_name is None ==> (r matches Err(
                ApiError::BadRequest(m),
            ) && m@ == "missing file name: provide 'file_name' or a multipart filename"@),
            self.file_data matches Some(d) ==> ((self.file_name is Some || self.dispo_file_name is Some) ==> (
            r matches Ok(u) && u.file_data@ == d@ && u.conversation_id == self.conversation_id && u.file_name
                == match self.file_name {
                Some(n) => n,
                None => self.dispo_file_name.unwrap(),
            })),
    {
        let UploadForm { file_data, file_name, dispo_file_name, conversation_id } = self;
        match file_data {
            None => Err(ApiError::BadRequest(String::from_str("missing 'file' field"))),
            Some(data) => match upload_file_name(file_name, dispo_file_name) {
                Ok(name) => Ok(Upload { file_data: data, file_name: name, conversation_id }),
                Err(e) => Err(e),
            },
        }
    }
}

/// The JSON form of a file read as bytes: binary data travels as its
/// standard base64 text; a file that was not there stays `None`.
pub fn file_buffer_text(data: Option<Vec<u8>>) -> (r: Option<String>)
    ensures
        data is None ==> r is None,
        data matches Some(b) ==> (r matches Some(t) && t@ == base64_encoding(b@)),
{
    match data {
        Some(b) => Some(base64_encode(b.as_slice())),
        None => None,
    }
}

} // verus!
