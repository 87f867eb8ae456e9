//! Validation of `agent_profiles.definition` against the PERFIL v1 schema.
//!
//! The checks run in a fixed order and the first failure is the answer:
//! unknown fields (root, `model`, `caps`, `acl`, each `channels[]` entry);
//! then the typed shape, whose detail is what the typed parse of the
//! definition reported (this module's own shape check, members in document
//! order and then missing required fields in declaration order, words it
//! only where that parse accepted the value); then the business rules
//! (`name` matches, `engines`, `channels[].type`, `caps.period`, the caps
//! amounts, `model.primary`). Every message names the offending field.

use vstd::prelude::*;

use crate::json::{
    field, find_member, find_member_from, items_of, member, members_of, number_key, number_less, text_of, texts_of, JsonValue,
};
use crate::text::{str_eq, trim, trim_spec, views};

verus! {

/// A validation failure; the message is fit to show in the admin UI.
#[derive(Debug, Clone, PartialEq, Eq)]
pub struct ProfileSchemaError(pub String);

/// An object of a profile definition whose keys are checked.
#[derive(Debug, Clone, Copy, PartialEq, Eq, Structural)]
pub enum Section {
    Root,
    Model,
    Caps,
    Acl,
    Channel,
}

/// The type a member must have.
#[derive(Debug, Clone, Copy, PartialEq, Eq, Structural)]
pub enum Shape {
    Text,
    TextList,
    OptionalText,
    Number,
    Object(Section),
    ChannelList,
}

/// Path of a section in messages.
pub open spec fn section_context(s: Section) -> Seq<char> {
    match s {
        Section::Root => "definition"@,
        Section::Model => "definition.model"@,
        Section::Caps => "definition.caps"@,
        Section::Acl => "definition.acl"@,
        Section::Channel => "definition.channels[]"@,
    }
}

/// The shape of member `k` of section `s`, `None` for a key the schema
/// does not know.
pub open spec fn member_shape(s: Section, k: Seq<char>) -> Option<Shape> {
    match s {
        Section::Root => if k == "name"@ || k == "label"@ || k == "soul_md"@ {
            Some(Shape::Text)
        } else if k == "engines"@ || k == "mcp_allowlist"@ || k == "skills"@ || k == "kb_scope"@ {
            Some(Shape::TextList)
        } else if k == "model"@ {
            Some(Shape::Object(Section::Model))
        } else if k == "caps"@ {
            Some(Shape::Object(Section::Caps))
        } else if k == "acl"@ {
            Some(Shape::Object(Section::Acl))
        } else if k == "channels"@ {
            Some(Shape::ChannelList)
        } else {
            None
        },
        Section::Model => if k == "primary"@ {
            Some(Shape::Text)
        } else if k == "fallbacks"@ {
            Some(Shape::TextList)
        } else {
            None
        },
        Section::Caps => if k == "soft_usd"@ || k == "hard_usd"@ {
            Some(Shape::Number)
        } else if k == "period"@ {
            Some(Shape::Text)
        } else {
            None
        },
        Section::Acl => if k == "etiqueta"@ {
            Some(Shape::Text)
        } else if k == "roles"@ {
            Some(Shape::TextList)
        } else {
            None
        },
        Section::Channel => if k == "type"@ {
            Some(Shape::Text)
        } else if k == "binding"@ {
            Some(Shape::OptionalText)
        } else {
            None
        },
    }
}

/// The required members of a section, in declaration order.
pub open spec fn required_members(s: Section) -> Seq<Seq<char>> {
    match s {
        Section::Root => seq![
            "name"@,
            "label"@,
            "engines"@,
            "soul_md"@,
            "model"@,
            "mcp_allowlist"@,
            "skills"@,
            "kb_scope"@,
            "channels"@,
            "caps"@,
            "acl"@,
        ],
        Section::Model => seq!["primary"@, "fallbacks"@],
        Section::Caps => seq!["soft_usd"@, "hard_usd"@, "period"@],
        Section::Acl => seq!["etiqueta"@, "roles"@],
        Section::Channel => seq!["type"@],
    }
}

// ---------------------------------------------------------------------------
// Stage 1: unknown fields
// ---------------------------------------------------------------------------

/// The first key, from index `i` on, that section `s` does not know.
pub open spec fn first_unknown_from(members: Seq<(String, JsonValue)>, s: Section, i: int) -> Option<Seq<char>>
    decreases members.len() - i,
{
    if i < 0 || i >= members.len() {
        None
    } else if member_shape(s, members[i].0@) is None {
        Some(members[i].0@)
    } else {
        first_unknown_from(members, s, i + 1)
    }
}

/// The unknown-field failure of `v` read as section `s`, if any.
pub open spec fn unknown_field_error(v: JsonValue, s: Section) -> Option<Seq<char>> {
    match v {
        JsonValue::Object(members) => match first_unknown_from(members@, s, 0) {
            Some(k) => Some("definition contains unknown field '"@ + section_context(s) + "."@ + k + "'"@),
            None => None,
        },
        _ => Some("'"@ + section_context(s) + "' must be a JSON object"@),
    }
}

/// The unknown-field failure of an optional member read as section `s`.
pub open spec fn present_unknown_field_error(v: Option<JsonValue>, s: Section) -> Option<Seq<char>> {
    match v {
        Some(x) => unknown_field_error(x, s),
        None => None,
    }
}

/// The first `channels[]` entry, from index `i` on, with an unknown field.
pub open spec fn channel_unknown_error_from(items: Seq<JsonValue>, i: int) -> Option<Seq<char>>
    decreases items.len() - i,
{
    if i < 0 || i >= items.len() {
        None
    } else if unknown_field_error(items[i], Section::Channel) is Some {
        unknown_field_error(items[i], Section::Channel)
    } else {
        channel_unknown_error_from(items, i + 1)
    }
}

/// `a` when it is a failure, `b` otherwise.
pub open spec fn first_failure(a: Option<Seq<char>>, b: Option<Seq<char>>) -> Option<Seq<char>> {
    if a is Some {
        a
    } else {
        b
    }
}

/// The failure of the unknown-field stage, if any.
pub open spec fn unknown_fields_stage(v: JsonValue) -> Option<Seq<char>> {
    first_failure(
        unknown_field_error(v, Section::Root),
        first_failure(
            present_unknown_field_error(field(v, "model"@), Section::Model),
            first_failure(
                present_unknown_field_error(field(v, "caps"@), Section::Caps),
                first_failure(
                    present_unknown_field_error(field(v, "acl"@), Section::Acl),
                    match field(v, "channels"@) {
                        Some(JsonValue::Array(items)) => channel_unknown_error_from(items@, 0),
                        _ => None,
                    },
                ),
            ),
        ),
    )
}

// ---------------------------------------------------------------------------
// Stage 2: typed shape
// ---------------------------------------------------------------------------

/// Whether `v` is a string.
pub open spec fn is_text(v: JsonValue) -> bool {
    v is Str
}

/// Whether every item of `items` is a string.
pub open spec fn all_text(items: Seq<JsonValue>) -> bool {
    forall|i: int| 0 <= i < items.len() ==> is_text(#[trigger] items[i])
}

/// Whether `v` has a scalar or string-list shape `t`.
pub open spec fn leaf_fits(t: Shape, v: JsonValue) -> bool {
    match t {
        Shape::Text => v is Str,
        Shape::TextList => match v {
            JsonValue::Array(items) => all_text(items@),
            _ => false,
        },
        Shape::OptionalText => v is Null || v is Str,
        Shape::Number => v is Number,
        _ => false,
    }
}

/// `invalid type for field `k``: the shape check's own wording, used where
/// the typed parse reported nothing.
pub open spec fn invalid_type(k: Seq<char>) -> Seq<char> {
    "invalid type for field `"@ + k + "`"@
}

/// `missing field `k``.
pub open spec fn missing_field(k: Seq<char>) -> Seq<char> {
    "missing field `"@ + k + "`"@
}

/// The first member of an inner section, from `i` on, whose value does not
/// fit its shape.
pub open spec fn inner_bad_member_from(members: Seq<(String, JsonValue)>, s: Section, i: int) -> Option<Seq<char>>
    decreases members.len() - i,
{
    if i < 0 || i >= members.len() {
        None
    } else if member_shape(s, members[i].0@) matches Some(t) && !leaf_fits(t, members[i].1) {
        Some(invalid_type(members[i].0@))
    } else {
        inner_bad_member_from(members, s, i + 1)
    }
}

/// The first required member of `s`, from position `j` of the declaration
/// on, that `members` lacks.
pub open spec fn first_missing_from(members: Seq<(String, JsonValue)>, s: Section, j: int) -> Option<Seq<char>>
    decreases required_members(s).len() - j,
{
    if j < 0 || j >= required_members(s).len() {
        None
    } else if find_member(members, required_members(s)[j]) is None {
        Some(missing_field(required_members(s)[j]))
    } else {
        first_missing_from(members, s, j + 1)
    }
}

/// The shape failure of an inner section's members: a badly typed member
/// first, then a missing one.
pub open spec fn inner_shape_error(members: Seq<(String, JsonValue)>, s: Section) -> Option<Seq<char>> {
    first_failure(inner_bad_member_from(members, s, 0), first_missing_from(members, s, 0))
}

/// The first `channels` item, from `i` on, that is not a well-shaped channel.
pub open spec fn channel_shape_error_from(items: Seq<JsonValue>, i: int) -> Option<Seq<char>>
    decreases items.len() - i,
{
    if i < 0 || i >= items.len() {
        None
    } else {
        match items[i] {
            JsonValue::Object(members) => if inner_shape_error(members@, Section::Channel) is Some {
                inner_shape_error(members@, Section::Channel)
            } else {
                channel_shape_error_from(items, i + 1)
            },
            _ => Some(invalid_type("channels"@)),
        }
    }
}

/// The shape failure of the root member `k` with value `v`.
pub open spec fn root_member_error(k: Seq<char>, v: JsonValue) -> Option<Seq<char>> {
    match member_shape(Section::Root, k) {
        Some(Shape::Object(s)) => match v {
            JsonValue::Object(members) => inner_shape_error(members@, s),
            _ => Some(invalid_type(k)),
        },
        Some(Shape::ChannelList) => match v {
            JsonValue::Array(items) => channel_shape_error_from(items@, 0),
            _ => Some(invalid_type(k)),
        },
        Some(t) => if leaf_fits(t, v) {
            None
        } else {
            Some(invalid_type(k))
        },
        None => None,
    }
}

/// The first root member, from `i` on, with a shape failure.
pub open spec fn root_bad_member_from(members: Seq<(String, JsonValue)>, i: int) -> Option<Seq<char>>
    decreases members.len() - i,
{
    if i < 0 || i >= members.len() {
        None
    } else if root_member_error(members[i].0@, members[i].1) is Some {
        root_member_error(members[i].0@, members[i].1)
    } else {
        root_bad_member_from(members, i + 1)
    }
}

/// The failure of the typed-shape stage for the root members, if any.
pub open spec fn shape_stage(members: Seq<(String, JsonValue)>) -> Option<Seq<char>> {
    first_failure(root_bad_member_from(members, 0), first_missing_from(members, Section::Root, 0))
}

// ---------------------------------------------------------------------------
// Stage 3: business rules
// ---------------------------------------------------------------------------

/// The engines a profile may be compiled to.
pub open spec fn is_engine(e: Seq<char>) -> bool {
    e == "hermes"@ || e == "openclaw"@ || e == "copilot"@
}

/// The spending periods of `caps.period`.
pub open spec fn is_period(p: Seq<char>) -> bool {
    p == "day"@ || p == "week"@ || p == "month"@
}

/// The first engine, from `i` on, that is not a known one.
pub open spec fn first_bad_engine_from(engines: Seq<Seq<char>>, i: int) -> Option<Seq<char>>
    decreases engines.len() - i,
{
    if i < 0 || i >= engines.len() {
        None
    } else if !is_engine(engines[i]) {
        Some(engines[i])
    } else {
        first_bad_engine_from(engines, i + 1)
    }
}

/// Whether a channel's `type`, trimmed, is empty.
pub open spec fn channel_type_blank(ch: JsonValue) -> bool {
    trim_spec(text_of(field(ch, "type"@))).len() == 0
}

/// Whether some channel, from `i` on, has a blank `type`.
pub open spec fn some_blank_channel_from(items: Seq<JsonValue>, i: int) -> bool
    decreases items.len() - i,
{
    if i < 0 || i >= items.len() {
        false
    } else {
        channel_type_blank(items[i]) || some_blank_channel_from(items, i + 1)
    }
}

/// The bit pattern of a number value (0 for any other value).
pub open spec fn number_bits(v: Option<JsonValue>) -> u64 {
    match v {
        Some(JsonValue::Number(b)) => b,
        _ => 0,
    }
}

/// The failure of the business rules on a well-shaped definition, if any.
pub open spec fn rules_stage(v: JsonValue, expected_name: Seq<char>) -> Option<Seq<char>> {
    let name = text_of(field(v, "name"@));
    let engines = texts_of(field(v, "engines"@));
    let caps = field(v, "caps"@).unwrap();
    let soft = number_key(number_bits(field(caps, "soft_usd"@)));
    let hard = number_key(number_bits(field(caps, "hard_usd"@)));
    let model = field(v, "model"@).unwrap();
    if name != expected_name {
        Some("definition.name ('"@ + name + "') must match the profile's name ('"@ + expected_name + "')"@)
    } else if engines.len() == 0 {
        Some("definition.engines must not be empty"@)
    } else if first_bad_engine_from(engines, 0) is Some {
        Some(
            "definition.engines contains invalid value '"@ + first_bad_engine_from(engines, 0).unwrap()
                + "' (must be one of: hermes, openclaw, copilot)"@,
        )
    } else if some_blank_channel_from(items_of(field(v, "channels"@)), 0) {
        Some("definition.channels[].type must not be empty"@)
    } else if !is_period(text_of(field(caps, "period"@))) {
        Some("definition.caps.period must be one of: day, week, month"@)
    } else if soft < 0 || hard < 0 {
        Some("definition.caps.soft_usd and hard_usd must be non-negative"@)
    } else if hard < soft {
        Some("definition.caps.hard_usd must be >= soft_usd"@)
    } else if trim_spec(text_of(field(model, "primary"@))).len() == 0 {
        Some("definition.model.primary must not be empty"@)
    } else {
        None
    }
}

/// The message a definition `v` is rejected with, or `None` when it is a
/// valid PERFIL v1 definition named `expected_name`. `typed_error` is what
/// the typed parse of the definition (serde's, made by the binary on the
/// same value) reported: `None` when it accepted the value, else its
/// message, which is the detail of a structural error. The checks come in
/// order: unknown fields, structure, business rules. Should the typed parse
/// accept a value whose structure this module's own check refuses, that
/// check's detail is reported.
pub open spec fn profile_error(v: JsonValue, typed_error: Option<Seq<char>>, expected_name: Seq<char>) -> Option<
    Seq<char>,
> {
    if unknown_fields_stage(v) is Some {
        unknown_fields_stage(v)
    } else if typed_error is Some {
        Some("definition missing/invalid required field: "@ + typed_error.unwrap())
    } else if shape_stage(members_of(Some(v))) is Some {
        Some("definition missing/invalid required field: "@ + shape_stage(members_of(Some(v))).unwrap())
    } else {
        rules_stage(v, expected_name)
    }
}

// ---------------------------------------------------------------------------
// Executable checks
// ---------------------------------------------------------------------------

fn section_context_str(s: Section) -> (r: &'static str)
    ensures
        r@ == section_context(s),
{
    match s {
        Section::Root => "definition",
        Section::Model => "definition.model",
        Section::Caps => "definition.caps",
        Section::Acl => "definition.acl",
        Section::Channel => "definition.channels[]",
    }
}

fn shape_of(s: Section, k: &str) -> (r: Option<Shape>)
    ensures
        r == member_shape(s, k@),
{
    match s {
        Section::Root => if str_eq(k, "name") || str_eq(k, "label") || str_eq(k, "soul_md") {
            Some(Shape::Text)
        } else if str_eq(k, "engines") || str_eq(k, "mcp_allowlist") || str_eq(k, "skills") || str_eq(
            k,
            "kb_scope",
        ) {
            Some(Shape::TextList)
        } else if str_eq(k, "model") {
            Some(Shape::Object(Section::Model))
        } else if str_eq(k, "caps") {
            Some(Shape::Object(Section::Caps))
        } else if str_eq(k, "acl") {
            Some(Shape::Object(Section::Acl))
        } else if str_eq(k, "channels") {
            Some(Shape::ChannelList)
        } else {
            None
        },
        Section::Model => if str_eq(k, "primary") {
            Some(Shape::Text)
        } else if str_eq(k, "fallbacks") {
            Some(Shape::TextList)
        } else {
            None
        },
        Section::Caps => if str_eq(k, "soft_usd") || str_eq(k, "hard_usd") {
            Some(Shape::Number)
        } else if str_eq(k, "period") {
            Some(Shape::Text)
        } else {
            None
        },
        Section::Acl => if str_eq(k, "etiqueta") {
            Some(Shape::Text)
        } else if str_eq(k, "roles") {
            Some(Shape::TextList)
        } else {
            None
        },
        Section::Channel => if str_eq(k, "type") {
            Some(Shape::Text)
        } else if str_eq(k, "binding") {
            Some(Shape::OptionalText)
        } else {
            None
        },
    }
}

fn required_names(s: Section) -> (r: Vec<&'static str>)
    ensures
        r@.len() == required_members(s).len(),
        forall|j: int| 0 <= j < r@.len() ==> (#[trigger] r@[j])@ == required_members(s)[j],
{
    match s {
        Section::Root => vec![
            "name",
            "label",
            "engines",
            "soul_md",
            "model",
            "mcp_allowlist",
            "skills",
            "kb_scope",
            "channels",
            "caps",
            "acl",
        ],
        Section::Model => vec!["primary", "fallbacks"],
        Section::Caps => vec!["soft_usd", "hard_usd", "period"],
        Section::Acl => vec!["etiqueta", "roles"],
        Section::Channel => vec!["type"],
    }
}

/// `a` followed by `b` and `c`.
fn concat3(a: &str, b: &str, c: &str) -> (r: String)
    ensures
        r@ == a@ + b@ + c@,
{
    let mut r = String::from_str(a);
    r.append(b);
    r.append(c);
    r
}

fn check_unknown(v: &JsonValue, s: Section) -> (r: Option<String>)
    ensures
        match r {
            Some(m) => unknown_field_error(*v, s) == Some(m@),
            None => unknown_field_error(*v, s) is None,
        },
{
    match v {
        JsonValue::Object(members) => {
            let mut i: usize = 0;
            while i < members.len()
                invariant
                    i <= members@.len(),
                    *v == JsonValue::Object(*members),
                    first_unknown_from(members@, s, 0) == first_unknown_from(members@, s, i as int),
                decreases members.len() - i,
            {
                if shape_of(s, members[i].0.as_str()).is_none() {
                    assert(first_unknown_from(members@, s, i as int) == Some(members@[i as int].0@));
                    let mut m = String::from_str("definition contains unknown field '");
                    m.append(section_context_str(s));
                    m.append(".");
                    m.append(members[i].0.as_str());
                    m.append("'");
                    return Some(m);
                }
                i += 1;
            }
            None
        },
        _ => Some(concat3("'", section_context_str(s), "' must be a JSON object")),
    }
}

fn unknown_stage_check(v: &JsonValue) -> (r: Option<String>)
    ensures
        match r {
            Some(m) => unknown_fields_stage(*v) == Some(m@),
            None => unknown_fields_stage(*v) is None,
        },
{
    let root = check_unknown(v, Section::Root);
    if root.is_some() {
        return root;
    }
    let members = match v {
        JsonValue::Object(m) => m,
        _ => {
            return None;
        },
    };
    if let Some(model) = member(members, "model") {
        let e = check_unknown(model, Section::Model);
        if e.is_some() {
            return e;
        }
    }
    if let Some(caps) = member(members, "caps") {
        let e = check_unknown(caps, Section::Caps);
        if e.is_some() {
            return e;
        }
    }
    if let Some(acl) = member(members, "acl") {
        let e = check_unknown(acl, Section::Acl);
        if e.is_some() {
            return e;
        }
    }
    match member(members, "channels") {
        Some(JsonValue::Array(items)) => {
            let mut i: usize = 0;
            while i < items.len()
                invariant
                    i <= items@.len(),
                    field(*v, "channels"@) == Some(JsonValue::Array(*items)),
                    unknown_field_error(*v, Section::Root) is None,
                    present_unknown_field_error(field(*v, "model"@), Section::Model) is None,
                    present_unknown_field_error(field(*v, "caps"@), Section::Caps) is None,
                    present_unknown_field_error(field(*v, "acl"@), Section::Acl) is None,
                    channel_unknown_error_from(items@, 0) == channel_unknown_error_from(items@, i as int),
                decreases items.len() - i,
            {
                let e = check_unknown(&items[i], Section::Channel);
                if e.is_some() {
                    return e;
                }
                i += 1;
            }
            None
        },
        _ => None,
    }
}

fn all_text_check(items: &Vec<JsonValue>) -> (r: bool)
    ensures
        r == all_text(items@),
{
    let mut i: usize = 0;
    while i < items.len()
        invariant
            i <= items@.len(),
            forall|j: int| 0 <= j < i ==> is_text(#[trigger] items@[j]),
        decreases items.len() - i,
    {
        match &items[i] {
            JsonValue::Str(_) => {},
            _ => {
                assert(!is_text(items@[i as int]));
                return false;
            },
        }
        i += 1;
    }
    true
}

fn leaf_fits_check(t: Shape, v: &JsonValue) -> (r: bool)
    ensures
        r == leaf_fits(t, *v),
{
    match (t, v) {
        (Shape::Text, JsonValue::Str(_)) => true,
        (Shape::TextList, JsonValue::Array(items)) => all_text_check(items),
        (Shape::OptionalText, JsonValue::Null) => true,
        (Shape::OptionalText, JsonValue::Str(_)) => true,
        (Shape::Number, JsonValue::Number(_)) => true,
        _ => false,
    }
}

fn first_missing_check(members: &Vec<(String, JsonValue)>, s: Section) -> (r: Option<String>)
    ensures
        match r {
            Some(m) => first_missing_from(members@, s, 0) == Some(m@),
            None => first_missing_from(members@, s, 0) is None,
        },
{
    let names = required_names(s);
    let mut j: usize = 0;
    while j < names.len()
        invariant
            j <= names@.len(),
            names@.len() == required_members(s).len(),
            forall|k: int| 0 <= k < names@.len() ==> (#[trigger] names@[k])@ == required_members(s)[k],
            first_missing_from(members@, s, 0) == first_missing_from(members@, s, j as int),
        decreases names.len() - j,
    {
        let name = names[j];
        assert(name@ == required_members(s)[j as int]);
        if member(members, name).is_none() {
            return Some(concat3("missing field `", name, "`"));
        }
        j += 1;
    }
    None
}

fn inner_shape_check(members: &Vec<(String, JsonValue)>, s: Section) -> (r: Option<String>)
    ensures
        match r {
            Some(m) => inner_shape_error(members@, s) == Some(m@),
            None => inner_shape_error(members@, s) is None,
        },
{
    let mut i: usize = 0;
    while i < members.len()
        invariant
            i <= members@.len(),
            inner_bad_member_from(members@, s, 0) == inner_bad_member_from(members@, s, i as int),
        decreases members.len() - i,
    {
        match shape_of(s, members[i].0.as_str()) {
            Some(t) => {
                if !leaf_fits_check(t, &members[i].1) {
                    return Some(concat3("invalid type for field `", members[i].0.as_str(), "`"));
                }
            },
            None => {},
        }
        i += 1;
    }
    first_missing_check(members, s)
}

fn channel_shape_check(items: &Vec<JsonValue>) -> (r: Option<String>)
    ensures
        match r {
            Some(m) => channel_shape_error_from(items@, 0) == Some(m@),
            None => channel_shape_error_from(items@, 0) is None,
        },
{
    let mut i: usize = 0;
    while i < items.len()
        invariant
            i <= items@.len(),
            channel_shape_error_from(items@, 0) == channel_shape_error_from(items@, i as int),
        decreases items.len() - i,
    {
        match &items[i] {
            JsonValue::Object(members) => {
                let e = inner_shape_check(members, Section::Channel);
                if e.is_some() {
                    return e;
                }
            },
            _ => {
                return Some(concat3("invalid type for field `", "channels", "`"));
            },
        }
        i += 1;
    }
    None
}

fn root_member_check(k: &str, v: &JsonValue) -> (r: Option<String>)
    ensures
        match r {
            Some(m) => root_member_error(k@, *v) == Some(m@),
            None => root_member_error(k@, *v) is None,
        },
{
    match shape_of(Section::Root, k) {
        Some(Shape::Object(s)) => match v {
            JsonValue::Object(members) => inner_shape_check(members, s),
            _ => Some(concat3("invalid type for field `", k, "`")),
        },
        Some(Shape::ChannelList) => match v {
            JsonValue::Array(items) => channel_shape_check(items),
            _ => Some(concat3("invalid type for field `", k, "`")),
        },
        Some(t) => if leaf_fits_check(t, v) {
            None
        } else {
            Some(concat3("invalid type for field `", k, "`"))
        },
        None => None,
    }
}

fn shape_stage_check(members: &Vec<(String, JsonValue)>) -> (r: Option<String>)
    ensures
        match r {
            Some(m) => shape_stage(members@) == Some(m@),
            None => shape_stage(members@) is None,
        },
{
    let mut i: usize = 0;
    while i < members.len()
        invariant
            i <= members@.len(),
            root_bad_member_from(members@, 0) == root_bad_member_from(members@, i as int),
        decreases members.len() - i,
    {
        let e = root_member_check(members[i].0.as_str(), &members[i].1);
        if e.is_some() {
            return e;
        }
        i += 1;
    }
    first_missing_check(members, Section::Root)
}

// ---------------------------------------------------------------------------
// The typed profile
// ---------------------------------------------------------------------------

/// `model` of a profile.
#[derive(Debug, Clone)]
pub struct ProfileModel {
    pub primary: String,
    pub fallbacks: Vec<String>,
}

/// An entry of `channels`.
#[derive(Debug, Clone)]
pub struct ProfileChannel {
    pub kind: String,
    pub binding: Option<String>,
}

/// `caps` of a profile; the amounts are `f64` bit patterns, as in
/// [`JsonValue::Number`].
#[derive(Debug, Clone)]
pub struct ProfileCaps {
    pub soft_usd: u64,
    pub hard_usd: u64,
    pub period: String,
}

/// `acl` of a profile.
#[derive(Debug, Clone)]
pub struct ProfileAcl {
    pub etiqueta: String,
    pub roles: Vec<String>,
}

/// A PERFIL v1 definition that passed validation.
#[derive(Debug, Clone)]
pub struct ProfileDefinition {
    pub name: String,
    pub label: String,
    pub engines: Vec<String>,
    pub soul_md: String,
    pub model: ProfileModel,
    pub mcp_allowlist: Vec<String>,
    pub skills: Vec<String>,
    pub kb_scope: Vec<String>,
    pub channels: Vec<ProfileChannel>,
    pub caps: ProfileCaps,
    pub acl: ProfileAcl,
}

/// The text of an optional string member (`None` when absent or `null`).
pub open spec fn optional_text(v: Option<JsonValue>) -> Option<Seq<char>> {
    match v {
        Some(JsonValue::Str(s)) => Some(s@),
        _ => None,
    }
}

/// The view of an optional `String`.
pub open spec fn option_view(o: Option<String>) -> Option<Seq<char>> {
    match o {
        Some(s) => Some(s@),
        None => None,
    }
}

/// Whether `c` holds what the channel object `item` says.
pub open spec fn channel_describes(c: ProfileChannel, item: JsonValue) -> bool {
    &&& c.kind@ == text_of(field(item, "type"@))
    &&& option_view(c.binding) == optional_text(field(item, "binding"@))
}

/// Whether `p` holds exactly what the definition `v` says.
pub open spec fn describes(p: ProfileDefinition, v: JsonValue) -> bool {
    let model = field(v, "model"@).unwrap();
    let caps = field(v, "caps"@).unwrap();
    let acl = field(v, "acl"@).unwrap();
    let channels = items_of(field(v, "channels"@));
    &&& p.name@ == text_of(field(v, "name"@))
    &&& p.label@ == text_of(field(v, "label"@))
    &&& views(p.engines@) == texts_of(field(v, "engines"@))
    &&& p.soul_md@ == text_of(field(v, "soul_md"@))
    &&& p.model.primary@ == text_of(field(model, "primary"@))
    &&& views(p.model.fallbacks@) == texts_of(field(model, "fallbacks"@))
    &&& views(p.mcp_allowlist@) == texts_of(field(v, "mcp_allowlist"@))
    &&& views(p.skills@) == texts_of(field(v, "skills"@))
    &&& views(p.kb_scope@) == texts_of(field(v, "kb_scope"@))
    &&& p.channels@.len() == channels.len()
    &&& forall|i: int| 0 <= i < channels.len() ==> channel_describes(#[trigger] p.channels@[i], channels[i])
    &&& p.caps.soft_usd == number_bits(field(caps, "soft_usd"@))
    &&& p.caps.hard_usd == number_bits(field(caps, "hard_usd"@))
    &&& p.caps.period@ == text_of(field(caps, "period"@))
    &&& p.acl.etiqueta@ == text_of(field(acl, "etiqueta"@))
    &&& views(p.acl.roles@) == texts_of(field(acl, "roles"@))
}

proof fn lemma_schema_shapes()
    ensures
        member_shape(Section::Root, "name"@) == Some(Shape::Text),
        member_shape(Section::Root, "label"@) == Some(Shape::Text),
        member_shape(Section::Root, "engines"@) == Some(Shape::TextList),
        member_shape(Section::Root, "soul_md"@) == Some(Shape::Text),
        member_shape(Section::Root, "model"@) == Some(Shape::Object(Section::Model)),
        member_shape(Section::Root, "mcp_allowlist"@) == Some(Shape::TextList),
        member_shape(Section::Root, "skills"@) == Some(Shape::TextList),
        member_shape(Section::Root, "kb_scope"@) == Some(Shape::TextList),
        member_shape(Section::Root, "channels"@) == Some(Shape::ChannelList),
        member_shape(Section::Root, "caps"@) == Some(Shape::Object(Section::Caps)),
        member_shape(Section::Root, "acl"@) == Some(Shape::Object(Section::Acl)),
        member_shape(Section::Model, "primary"@) == Some(Shape::Text),
        member_shape(Section::Model, "fallbacks"@) == Some(Shape::TextList),
        member_shape(Section::Caps, "soft_usd"@) == Some(Shape::Number),
        member_shape(Section::Caps, "hard_usd"@) == Some(Shape::Number),
        member_shape(Section::Caps, "period"@) == Some(Shape::Text),
        member_shape(Section::Acl, "etiqueta"@) == Some(Shape::Text),
        member_shape(Section::Acl, "roles"@) == Some(Shape::TextList),
        member_shape(Section::Channel, "type"@) == Some(Shape::Text),
        member_shape(Section::Channel, "binding"@) == Some(Shape::OptionalText),
{
    reveal_strlit("name");
    reveal_strlit("label");
    reveal_strlit("engines");
    reveal_strlit("soul_md");
    reveal_strlit("model");
    reveal_strlit("mcp_allowlist");
    reveal_strlit("skills");
    reveal_strlit("kb_scope");
    reveal_strlit("channels");
    reveal_strlit("caps");
    reveal_strlit("acl");
    reveal_strlit("primary");
    reveal_strlit("fallbacks");
    reveal_strlit("soft_usd");
    reveal_strlit("hard_usd");
    reveal_strlit("period");
    reveal_strlit("etiqueta");
    reveal_strlit("roles");
    reveal_strlit("type");
    reveal_strlit("binding");
    assert("label"@.len() != "name"@.len());
    assert("soul_md"@.len() != "name"@.len());
    assert("soul_md"@.len() != "label"@.len());
    assert("engines"@.len() != "name"@.len());
    assert("engines"@.len() != "label"@.len());
    assert("engines"@[0] != "soul_md"@[0]);
    assert("mcp_allowlist"@.len() != "name"@.len());
    assert("mcp_allowlist"@.len() != "label"@.len());
    assert("mcp_allowlist"@.len() != "soul_md"@.len());
    assert("mcp_allowlist"@.len() != "engines"@.len());
    assert("skills"@.len() != "name"@.len());
    assert("skills"@.len() != "label"@.len());
    assert("skills"@.len() != "soul_md"@.len());
    assert("skills"@.len() != "engines"@.len());
    assert("skills"@.len() != "mcp_allowlist"@.len());
    assert("kb_scope"@.len() != "name"@.len());
    assert("kb_scope"@.len() != "label"@.len());
    assert("kb_scope"@.len() != "soul_md"@.len());
    assert("kb_scope"@.len() != "engines"@.len());
    assert("kb_scope"@.len() != "mcp_allowlist"@.len());
    assert("kb_scope"@.len() != "skills"@.len());
    assert("model"@.len() != "name"@.len());
    assert("model"@[0] != "label"@[0]);
    assert("model"@.len() != "soul_md"@.len());
    assert("model"@.len() != "engines"@.len());
    assert("model"@.len() != "mcp_allowlist"@.len());
    assert("model"@.len() != "skills"@.len());
    assert("model"@.len() != "kb_scope"@.len());
    assert("caps"@[0] != "name"@[0]);
    assert("caps"@.len() != "label"@.len());
    assert("caps"@.len() != "soul_md"@.len());
    assert("caps"@.len() != "engines"@.len());
    assert("caps"@.len() != "mcp_allowlist"@.len());
    assert("caps"@.len() != "skills"@.len());
    assert("caps"@.len() != "kb_scope"@.len());
    assert("caps"@.len() != "model"@.len());
    assert("acl"@.len() != "name"@.len());
    assert("acl"@.len() != "label"@.len());
    assert("acl"@.len() != "soul_md"@.len());
    assert("acl"@.len() != "engines"@.len());
    assert("acl"@.len() != "mcp_allowlist"@.len());
    assert("acl"@.len() != "skills"@.len());
    assert("acl"@.len() != "kb_scope"@.len());
    assert("acl"@.len() != "model"@.len());
    assert("acl"@.len() != "caps"@.len());
    assert("channels"@.len() != "name"@.len());
    assert("channels"@.len() != "label"@.len());
    assert("channels"@.len() != "soul_md"@.len());
    assert("channels"@.len() != "engines"@.len());
    assert("channels"@.len() != "mcp_allowlist"@.len());
    assert("channels"@.len() != "skills"@.len());
    assert("channels"@[0] != "kb_scope"@[0]);
    assert("channels"@.len() != "model"@.len());
    assert("channels"@.len() != "caps"@.len());
    assert("channels"@.len() != "acl"@.len());
    assert("fallbacks"@.len() != "primary"@.len());
    assert("hard_usd"@[0] != "soft_usd"@[0]);
    assert("period"@.len() != "soft_usd"@.len());
    assert("period"@.len() != "hard_usd"@.len());
    assert("roles"@.len() != "etiqueta"@.len());
    assert("binding"@.len() != "type"@.len());
}

proof fn lemma_member_index(m: Seq<(String, JsonValue)>, k: Seq<char>, from: int) -> (i: int)
    requires
        0 <= from,
        find_member_from(m, k, from) is Some,
    ensures
        from <= i < m.len(),
        m[i].0@ == k,
        find_member_from(m, k, from) == Some(m[i].1),
    decreases m.len() - from,
{
    if m[from].0@ == k {
        from
    } else {
        lemma_member_index(m, k, from + 1)
    }
}

proof fn lemma_required_present(m: Seq<(String, JsonValue)>, s: Section, from: int, j: int)
    requires
        first_missing_from(m, s, from) is None,
        0 <= from <= j < required_members(s).len(),
    ensures
        find_member(m, required_members(s)[j]) is Some,
    decreases j - from,
{
    if from < j {
        lemma_required_present(m, s, from + 1, j);
    }
}

proof fn lemma_root_member_ok(m: Seq<(String, JsonValue)>, from: int, i: int)
    requires
        root_bad_member_from(m, from) is None,
        0 <= from <= i < m.len(),
    ensures
        root_member_error(m[i].0@, m[i].1) is None,
    decreases i - from,
{
    if from < i {
        lemma_root_member_ok(m, from + 1, i);
    }
}

proof fn lemma_inner_member_ok(m: Seq<(String, JsonValue)>, s: Section, from: int, i: int)
    requires
        inner_bad_member_from(m, s, from) is None,
        0 <= from <= i < m.len(),
    ensures
        member_shape(s, m[i].0@) matches Some(t) ==> leaf_fits(t, m[i].1),
    decreases i - from,
{
    if from < i {
        lemma_inner_member_ok(m, s, from + 1, i);
    }
}

proof fn lemma_channel_ok(items: Seq<JsonValue>, from: int, i: int)
    requires
        channel_shape_error_from(items, from) is None,
        0 <= from <= i < items.len(),
    ensures
        items[i] matches JsonValue::Object(mm) && inner_shape_error(mm@, Section::Channel) is None,
    decreases i - from,
{
    if from < i {
        lemma_channel_ok(items, from + 1, i);
    }
}

/// A required member of a well-shaped root, with its shape failure ruled out.
proof fn lemma_root_field(m: Seq<(String, JsonValue)>, j: int) -> (x: JsonValue)
    requires
        shape_stage(m) is None,
        0 <= j < required_members(Section::Root).len(),
    ensures
        find_member(m, required_members(Section::Root)[j]) == Some(x),
        root_member_error(required_members(Section::Root)[j], x) is None,
{
    lemma_required_present(m, Section::Root, 0, j);
    let i = lemma_member_index(m, required_members(Section::Root)[j], 0);
    lemma_root_member_ok(m, 0, i);
    m[i].1
}

/// A member of a well-shaped inner section fits its shape.
proof fn lemma_inner_field(m: Seq<(String, JsonValue)>, s: Section, k: Seq<char>, t: Shape)
    requires
        inner_shape_error(m, s) is None,
        member_shape(s, k) == Some(t),
        find_member(m, k) is Some,
    ensures
        leaf_fits(t, find_member(m, k).unwrap()),
{
    let i = lemma_member_index(m, k, 0);
    lemma_inner_member_ok(m, s, 0, i);
}

/// A required member of a well-shaped inner section is present and fits.
proof fn lemma_inner_required(m: Seq<(String, JsonValue)>, s: Section, j: int, t: Shape)
    requires
        inner_shape_error(m, s) is None,
        0 <= j < required_members(s).len(),
        member_shape(s, required_members(s)[j]) == Some(t),
    ensures
        find_member(m, required_members(s)[j]) is Some,
        leaf_fits(t, find_member(m, required_members(s)[j]).unwrap()),
{
    lemma_required_present(m, s, 0, j);
    lemma_inner_field(m, s, required_members(s)[j], t);
}

fn text_member(m: &Vec<(String, JsonValue)>, key: &str) -> (r: String)
    requires
        find_member(m@, key@) matches Some(JsonValue::Str(_)),
    ensures
        r@ == text_of(find_member(m@, key@)),
{
    match member(m, key) {
        Some(JsonValue::Str(s)) => s.clone(),
        _ => vstd::pervasive::unreached(),
    }
}

fn text_items(items: &Vec<JsonValue>) -> (r: Vec<String>)
    requires
        all_text(items@),
    ensures
        views(r@) == texts_of(Some(JsonValue::Array(*items))),
{
    let mut r: Vec<String> = Vec::new();
    let mut i: usize = 0;
    while i < items.len()
        invariant
            i <= items@.len(),
            all_text(items@),
            r@.len() == i,
            forall|j: int| 0 <= j < i ==> (#[trigger] r@[j])@ == text_of(Some(items@[j])),
        decreases items.len() - i,
    {
        assert(is_text(items@[i as int]));
        match &items[i] {
            JsonValue::Str(s) => r.push(s.clone()),
            _ => vstd::pervasive::unreached(),
        }
        i += 1;
    }
    assert(views(r@) =~= texts_of(Some(JsonValue::Array(*items))));
    r
}

fn text_list_member(m: &Vec<(String, JsonValue)>, key: &str) -> (r: Vec<String>)
    requires
        find_member(m@, key@) is Some,
        leaf_fits(Shape::TextList, find_member(m@, key@).unwrap()),
    ensures
        views(r@) == texts_of(find_member(m@, key@)),
{
    match member(m, key) {
        Some(JsonValue::Array(items)) => text_items(items),
        _ => vstd::pervasive::unreached(),
    }
}

fn number_member(m: &Vec<(String, JsonValue)>, key: &str) -> (r: u64)
    requires
        find_member(m@, key@) matches Some(JsonValue::Number(_)),
    ensures
        r == number_bits(find_member(m@, key@)),
{
    match member(m, key) {
        Some(JsonValue::Number(b)) => *b,
        _ => vstd::pervasive::unreached(),
    }
}

fn object_member<'a>(m: &'a Vec<(String, JsonValue)>, key: &str) -> (r: &'a Vec<(String, JsonValue)>)
    requires
        find_member(m@, key@) matches Some(JsonValue::Object(_)),
    ensures
        find_member(m@, key@) == Some(JsonValue::Object(*r)),
{
    match member(m, key) {
        Some(JsonValue::Object(o)) => o,
        _ => vstd::pervasive::unreached(),
    }
}

fn extract_channel(item: &JsonValue) -> (c: ProfileChannel)
    requires
        item matches JsonValue::Object(mm) && inner_shape_error(mm@, Section::Channel) is None,
    ensures
        channel_describes(c, *item),
{
    proof {
        lemma_schema_shapes();
    }
    match item {
        JsonValue::Object(mm) => {
            proof {
                assert(required_members(Section::Channel)[0] == "type"@);
                lemma_inner_required(mm@, Section::Channel, 0, Shape::Text);
            }
            let kind = text_member(mm, "type");
            let binding = match member(mm, "binding") {
                Some(JsonValue::Str(b)) => Some(b.clone()),
                _ => None,
            };
            c_of(kind, binding)
        },
        _ => vstd::pervasive::unreached(),
    }
}

fn c_of(kind: String, binding: Option<String>) -> (c: ProfileChannel)
    ensures
        c.kind == kind,
        c.binding == binding,
{
    ProfileChannel { kind, binding }
}

fn extract_channels(items: &Vec<JsonValue>) -> (r: Vec<ProfileChannel>)
    requires
        channel_shape_error_from(items@, 0) is None,
    ensures
        r@.len() == items@.len(),
        forall|i: int| 0 <= i < items@.len() ==> channel_describes(#[trigger] r@[i], items@[i]),
{
    let mut r: Vec<ProfileChannel> = Vec::new();
    let mut i: usize = 0;
    while i < items.len()
        invariant
            i <= items@.len(),
            channel_shape_error_from(items@, 0) is None,
            r@.len() == i,
            forall|j: int| 0 <= j < i ==> channel_describes(#[trigger] r@[j], items@[j]),
        decreases items.len() - i,
    {
        proof {
            lemma_channel_ok(items@, 0, i as int);
        }
        let c = extract_channel(&items[i]);
        r.push(c);
        i += 1;
    }
    r
}

fn extract_profile(m: &Vec<(String, JsonValue)>) -> (p: ProfileDefinition)
    requires
        shape_stage(m@) is None,
    ensures
        describes(p, JsonValue::Object(*m)),
{
    proof {
        lemma_schema_shapes();
        let req = required_members(Section::Root);
        assert(req[0] == "name"@ && req[1] == "label"@ && req[2] == "engines"@ && req[3] == "soul_md"@);
        assert(req[4] == "model"@ && req[5] == "mcp_allowlist"@ && req[6] == "skills"@ && req[7] == "kb_scope"@);
        assert(req[8] == "channels"@ && req[9] == "caps"@ && req[10] == "acl"@);
        lemma_root_field(m@, 0);
        lemma_root_field(m@, 1);
        lemma_root_field(m@, 2);
        lemma_root_field(m@, 3);
        lemma_root_field(m@, 4);
        lemma_root_field(m@, 5);
        lemma_root_field(m@, 6);
        lemma_root_field(m@, 7);
        lemma_root_field(m@, 8);
        lemma_root_field(m@, 9);
        lemma_root_field(m@, 10);
    }
    let name = text_member(m, "name");
    let label = text_member(m, "label");
    let engines = text_list_member(m, "engines");
    let soul_md = text_member(m, "soul_md");
    let mcp_allowlist = text_list_member(m, "mcp_allowlist");
    let skills = text_list_member(m, "skills");
    let kb_scope = text_list_member(m, "kb_scope");
    let model_m = object_member(m, "model");
    proof {
        let mr = required_members(Section::Model);
        assert(mr[0] == "primary"@ && mr[1] == "fallbacks"@);
        lemma_inner_required(model_m@, Section::Model, 0, Shape::Text);
        lemma_inner_required(model_m@, Section::Model, 1, Shape::TextList);
    }
    let model = ProfileModel {
        primary: text_member(model_m, "primary"),
        fallbacks: text_list_member(model_m, "fallbacks"),
    };
    let caps_m = object_member(m, "caps");
    proof {
        let cr = required_members(Section::Caps);
        assert(cr[0] == "soft_usd"@ && cr[1] == "hard_usd"@ && cr[2] == "period"@);
        lemma_inner_required(caps_m@, Section::Caps, 0, Shape::Number);
        lemma_inner_required(caps_m@, Section::Caps, 1, Shape::Number);
        lemma_inner_required(caps_m@, Section::Caps, 2, Shape::Text);
    }
    let caps = ProfileCaps {
        soft_usd: number_member(caps_m, "soft_usd"),
        hard_usd: number_member(caps_m, "hard_usd"),
        period: text_member(caps_m, "period"),
    };
    let acl_m = object_member(m, "acl");
    proof {
        let ar = required_members(Section::Acl);
        assert(ar[0] == "etiqueta"@ && ar[1] == "roles"@);
        lemma_inner_required(acl_m@, Section::Acl, 0, Shape::Text);
        lemma_inner_required(acl_m@, Section::Acl, 1, Shape::TextList);
    }
    let acl = ProfileAcl { etiqueta: text_member(acl_m, "etiqueta"), roles: text_list_member(acl_m, "roles") };
    let channels = match member(m, "channels") {
        Some(JsonValue::Array(items)) => extract_channels(items),
        _ => vstd::pervasive::unreached(),
    };
    ProfileDefinition {
        name,
        label,
        engines,
        soul_md,
        model,
        mcp_allowlist,
        skills,
        kb_scope,
        channels,
        caps,
        acl,
    }
}

fn is_engine_name(e: &str) -> (r: bool)
    ensures
        r == is_engine(e@),
{
    str_eq(e, "hermes") || str_eq(e, "openclaw") || str_eq(e, "copilot")
}

fn is_period_name(p: &str) -> (r: bool)
    ensures
        r == is_period(p@),
{
    str_eq(p, "day") || str_eq(p, "week") || str_eq(p, "month")
}

#[verifier::loop_isolation(false)]
fn rules_check(p: &ProfileDefinition, Ghost(v): Ghost<JsonValue>, expected_name: &str) -> (r: Option<String>)
    requires
        describes(*p, v),
    ensures
        match r {
            Some(m) => rules_stage(v, expected_name@) == Some(m@),
            None => rules_stage(v, expected_name@) is None,
        },
{
    if !str_eq(p.name.as_str(), expected_name) {
        let mut m = String::from_str("definition.name ('");
        m.append(p.name.as_str());
        m.append("') must match the profile's name ('");
        m.append(expected_name);
        m.append("')");
        return Some(m);
    }
    let ghost engines = texts_of(field(v, "engines"@));
    assert(engines.len() == p.engines@.len());
    if p.engines.len() == 0 {
        return Some(String::from_str("definition.engines must not be empty"));
    }
    let mut i: usize = 0;
    while i < p.engines.len()
        invariant
            i <= p.engines@.len(),
            engines == views(p.engines@),
            first_bad_engine_from(engines, 0) == first_bad_engine_from(engines, i as int),
        decreases p.engines.len() - i,
    {
        assert(engines[i as int] == p.engines@[i as int]@);
        if !is_engine_name(p.engines[i].as_str()) {
            return Some(
                concat3(
                    "definition.engines contains invalid value '",
                    p.engines[i].as_str(),
                    "' (must be one of: hermes, openclaw, copilot)",
                ),
            );
        }
        i += 1;
    }
    let ghost items = items_of(field(v, "channels"@));
    let mut k: usize = 0;
    while k < p.channels.len()
        invariant
            k <= p.channels@.len(),
            p.channels@.len() == items.len(),
            forall|j: int| 0 <= j < items.len() ==> channel_describes(#[trigger] p.channels@[j], items[j]),
            some_blank_channel_from(items, 0) == some_blank_channel_from(items, k as int),
        decreases p.channels.len() - k,
    {
        assert(channel_describes(p.channels@[k as int], items[k as int]));
        if trim(p.channels[k].kind.as_str()).as_str().is_empty() {
            return Some(String::from_str("definition.channels[].type must not be empty"));
        }
        k += 1;
    }
    if !is_period_name(p.caps.period.as_str()) {
        return Some(String::from_str("definition.caps.period must be one of: day, week, month"));
    }
    if number_less(p.caps.soft_usd, 0) || number_less(p.caps.hard_usd, 0) {
        return Some(String::from_str("definition.caps.soft_usd and hard_usd must be non-negative"));
    }
    if number_less(p.caps.hard_usd, p.caps.soft_usd) {
        return Some(String::from_str("definition.caps.hard_usd must be >= soft_usd"));
    }
    if trim(p.model.primary.as_str()).as_str().is_empty() {
        return Some(String::from_str("definition.model.primary must not be empty"));
    }
    None
}

/// Checks a parsed definition against PERFIL v1 and returns it typed.
/// `expected_name` is the profile row's `name`, which `definition.name` must
/// equal. The error is exactly the first failing check (see the module).
pub fn parse_profile_value(v: &JsonValue, typed_error: &Option<String>, expected_name: &str) -> (r: Result<
    ProfileDefinition,
    ProfileSchemaError,
>)
    ensures
        match r {
            Ok(p) => profile_error(*v, option_view(*typed_error), expected_name@) is None && describes(p, *v),
            Err(e) => profile_error(*v, option_view(*typed_error), expected_name@) == Some(e.0@),
        },
{
    let unknown = unknown_stage_check(v);
    match unknown {
        Some(m) => {
            return Err(ProfileSchemaError(m));
        },
        None => {},
    }
    match typed_error {
        Some(t) => {
            let mut m = String::from_str("definition missing/invalid required field: ");
            m.append(t.as_str());
            return Err(ProfileSchemaError(m));
        },
        None => {},
    }
    let members = match v {
        JsonValue::Object(m) => m,
        _ => vstd::pervasive::unreached(),
    };
    let shape = shape_stage_check(members);
    match shape {
        Some(detail) => {
            let mut m = String::from_str("definition missing/invalid required field: ");
            m.append(detail.as_str());
            return Err(ProfileSchemaError(m));
        },
        None => {},
    }
    let p = extract_profile(members);
    match rules_check(&p, Ghost(*v), expected_name) {
        Some(m) => Err(ProfileSchemaError(m)),
        None => Ok(p),
    }
}

/// Whether a parsed definition is a valid PERFIL v1 definition named
/// `expected_name`, given what its typed parse reported; the error is the
/// first failing check.
pub fn validate_profile_value(v: &JsonValue, typed_error: &Option<String>, expected_name: &str) -> (r: Result<
    (),
    ProfileSchemaError,
>)
    ensures
        match r {
            Ok(()) => profile_error(*v, option_view(*typed_error), expected_name@) is None,
            Err(e) => profile_error(*v, option_view(*typed_error), expected_name@) == Some(e.0@),
        },
{
    match parse_profile_value(v, typed_error, expected_name) {
        Ok(_) => Ok(()),
        Err(e) => Err(e),
    }
}

} // verus!
