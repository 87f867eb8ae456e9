//! The `copilot` engine compiler: a profile that lists `copilot` among its
//! engines is projected onto a managed assistant definition
//! (`source = 'generated'`, `owner_type = 'system'`, `source_ref` = the
//! profile id).
//!
//! Materializing is idempotent: the stored row is compared field by field
//! with what would be written, and nothing is written when they agree.

use vstd::prelude::*;

use crate::json::{field, text_of, texts_of, JsonValue};
use crate::models::AgentProfileRow;
use crate::profile_schema::{
    describes, option_view, parse_profile_value, profile_error, ProfileDefinition,
};
use crate::crypto::hex_digit;
use crate::text::{str_eq, views};

verus! {

/// Execution backend of the assistants generated from a profile.
pub const GENERATED_AGENT_BACKEND: &'static str = "aionrs";

/// Errors of the assistant layer.
#[derive(Debug, Clone, PartialEq, Eq)]
pub enum AssistantError {
    BadRequest(String),
    Internal(String),
}

/// Outcome of materializing a profile.
#[derive(Debug, Clone, Copy, PartialEq, Eq, Structural)]
pub enum MaterializeOutcome {
    /// The assistant definition did not exist and was created.
    Created,
    /// It existed and a derived field changed.
    Updated,
    /// It existed and already held what would be written; nothing written.
    Unchanged,
    /// The profile is not compiled to `copilot` (or is inactive) and there
    /// was nothing to retire.
    NotApplicable,
    /// The profile is no longer compiled to `copilot` (or is inactive) and
    /// its previously generated assistant was retired.
    Retired,
}

/// The stored assistant definition of a profile (the fields the compiler
/// derives).
#[derive(Debug, Clone)]
pub struct AssistantDefinitionRow {
    pub definition_id: String,
    pub assistant_key: String,
    pub source: String,
    pub owner_type: String,
    pub source_ref: Option<String>,
    pub name: String,
    pub description: Option<String>,
    pub agent_backend: String,
    pub rule_resource_type: String,
    pub rule_inline_content: Option<String>,
    pub default_model_mode: String,
    pub default_model_value: Option<String>,
    pub default_skills_mode: String,
    pub default_skill_ids: String,
    pub default_mcps_mode: String,
    pub default_mcp_ids: String,
}

/// The parameters of an assistant-definition upsert.
#[derive(Debug, Clone)]
pub struct UpsertAssistantDefinitionParams {
    pub definition_id: String,
    pub assistant_key: String,
    pub source: String,
    pub owner_type: String,
    pub source_ref: Option<String>,
    pub source_version: Option<String>,
    pub source_hash: Option<String>,
    pub name: String,
    pub name_i18n: String,
    pub description: Option<String>,
    pub description_i18n: String,
    pub avatar_type: String,
    pub avatar_value: Option<String>,
    pub agent_backend: String,
    pub rule_resource_type: String,
    pub rule_resource_ref: Option<String>,
    pub rule_inline_content: Option<String>,
    pub recommended_prompts: String,
    pub recommended_prompts_i18n: String,
    pub default_model_mode: String,
    pub default_model_value: Option<String>,
    pub default_permission_mode: String,
    pub default_permission_value: Option<String>,
    pub default_skills_mode: String,
    pub default_skill_ids: String,
    pub custom_skill_names: String,
    pub default_disabled_builtin_skill_ids: String,
    pub default_mcps_mode: String,
    pub default_mcp_ids: String,
}

/// The fields the compiler derives from a profile.
#[derive(Debug, Clone)]
pub struct DesiredDefinition {
    pub assistant_key: String,
    pub source_ref: String,
    pub name: String,
    pub description: String,
    pub rule_inline_content: String,
    pub default_model_value: String,
    pub default_skill_ids_json: String,
    pub default_mcp_ids_json: String,
}

/// How the compact JSON writer writes the character `c` inside a string:
/// `"` and `\` behind a backslash; backspace, tab, line feed, form feed and
/// carriage return as `\b`, `\t`, `\n`, `\f`, `\r`; the other control
/// characters below U+0020 as `\u00` and two lowercase hex digits; every
/// other character as itself.
pub open spec fn json_char_text(c: char) -> Seq<char> {
    if c == '"' {
        seq!['\\', '"']
    } else if c == '\\' {
        seq!['\\', '\\']
    } else if c == '\u{8}' {
        seq!['\\', 'b']
    } else if c == '\t' {
        seq!['\\', 't']
    } else if c == '\n' {
        seq!['\\', 'n']
    } else if c == '\u{c}' {
        seq!['\\', 'f']
    } else if c == '\r' {
        seq!['\\', 'r']
    } else if (c as int) < 0x20 {
        seq!['\\', 'u', '0', '0', hex_digit((c as int) / 16), hex_digit((c as int) % 16)]
    } else {
        seq![c]
    }
}

/// The characters of `s`, each written as [`json_char_text`] gives it.
pub open spec fn json_escaped(s: Seq<char>) -> Seq<char>
    decreases s.len(),
{
    if s.len() == 0 {
        Seq::empty()
    } else {
        json_escaped(s.drop_last()) + json_char_text(s.last())
    }
}

/// `s` as a JSON string: quoted, its characters escaped.
pub open spec fn json_string(s: Seq<char>) -> Seq<char> {
    seq!['"'] + json_escaped(s) + seq!['"']
}

/// The JSON strings of `values`, separated by commas.
pub open spec fn json_string_items(values: Seq<Seq<char>>) -> Seq<char>
    decreases values.len(),
{
    if values.len() == 0 {
        Seq::empty()
    } else if values.len() == 1 {
        json_string(values[0])
    } else {
        json_string_items(values.drop_last()) + seq![','] + json_string(values.last())
    }
}

/// The compact JSON array of the strings `values`: `[`, the strings
/// separated by commas with no spaces, `]`.
pub open spec fn json_string_array(values: Seq<Seq<char>>) -> Seq<char> {
    seq!['['] + json_string_items(values) + seq![']']
}

/// `serde_json::to_string` on a list of strings, as its JSON text: the
/// compact formatter writes `[`, each string quoted and escaped by its
/// escape table (the `"`, `\` and control characters of
/// [`json_char_text`]; nothing else, so every other character, non-ASCII
/// ones included, stands as itself), commas between them and `]`. The
/// serializer fails only when a `Serialize` impl fails or a map has
/// non-string keys (its documentation and source), which a list of strings
/// never does: the call always succeeds.
#[verifier::external_body]
fn serialize_string_list(values: &Vec<String>) -> (r: Option<String>)
    ensures
        r is Some,
        r matches Some(t) ==> t@ == json_string_array(views(values@)),
{
    serde_json::to_string(values).ok()
}

/// The JSON array text of `values`.
pub fn encode_json_array(values: &Vec<String>) -> (r: String)
    ensures
        r@ == json_string_array(views(values@)),
{
    match serialize_string_list(values) {
        Some(t) => t,
        None => String::from_str("[]"),
    }
}

/// The stable `assistant_key` of a profile's assistant.
pub open spec fn assistant_key_spec(profile_name: Seq<char>) -> Seq<char> {
    "profile:"@ + profile_name
}

/// `profile:{name}`: the stable key of the assistant generated from the
/// profile named `profile_name`.
pub fn assistant_key_for_profile(profile_name: &str) -> (r: String)
    ensures
        r@ == assistant_key_spec(profile_name@),
{
    let mut r = String::from_str("profile:");
    r.append(profile_name);
    r
}

/// Whether a stored row already holds everything `d` derives.
pub open spec fn desired_matches(d: DesiredDefinition, e: AssistantDefinitionRow) -> bool {
    &&& e.assistant_key@ == d.assistant_key@
    &&& e.source@ == "generated"@
    &&& e.owner_type@ == "system"@
    &&& option_view(e.source_ref) == Some(d.source_ref@)
    &&& e.name@ == d.name@
    &&& option_view(e.description) == Some(d.description@)
    &&& e.agent_backend@ == GENERATED_AGENT_BACKEND@
    &&& e.rule_resource_type@ == "inline"@
    &&& option_view(e.rule_inline_content) == Some(d.rule_inline_content@)
    &&& e.default_model_mode@ == "fixed"@
    &&& option_view(e.default_model_value) == Some(d.default_model_value@)
    &&& e.default_skills_mode@ == "fixed"@
    &&& e.default_skill_ids@ == d.default_skill_ids_json@
    &&& e.default_mcps_mode@ == "fixed"@
    &&& e.default_mcp_ids@ == d.default_mcp_ids_json@
}

/// Whether `p` are the upsert parameters of `d` under `definition_id`.
pub open spec fn params_of(p: UpsertAssistantDefinitionParams, d: DesiredDefinition, definition_id: Seq<char>) -> bool {
    &&& p.definition_id@ == definition_id
    &&& p.assistant_key@ == d.assistant_key@
    &&& p.source@ == "generated"@
    &&& p.owner_type@ == "system"@
    &&& option_view(p.source_ref) == Some(d.source_ref@)
    &&& p.source_version is None
    &&& p.source_hash is None
    &&& p.name@ == d.name@
    &&& p.name_i18n@ == "{}"@
    &&& option_view(p.description) == Some(d.description@)
    &&& p.description_i18n@ == "{}"@
    &&& p.avatar_type@ == "none"@
    &&& p.avatar_value is None
    &&& p.agent_backend@ == GENERATED_AGENT_BACKEND@
    &&& p.rule_resource_type@ == "inline"@
    &&& p.rule_resource_ref is None
    &&& option_view(p.rule_inline_content) == Some(d.rule_inline_content@)
    &&& p.recommended_prompts@ == "[]"@
    &&& p.recommended_prompts_i18n@ == "{}"@
    &&& p.default_model_mode@ == "fixed"@
    &&& option_view(p.default_model_value) == Some(d.default_model_value@)
    &&& p.default_permission_mode@ == "auto"@
    &&& p.default_permission_value is None
    &&& p.default_skills_mode@ == "fixed"@
    &&& p.default_skill_ids@ == d.default_skill_ids_json@
    &&& p.custom_skill_names@ == "[]"@
    &&& p.default_disabled_builtin_skill_ids@ == "[]"@
    &&& p.default_mcps_mode@ == "fixed"@
    &&& p.default_mcp_ids@ == d.default_mcp_ids_json@
}

/// Whether the stored row `e` is what an upsert of `p` leaves behind.
pub open spec fn row_written_from(e: AssistantDefinitionRow, p: UpsertAssistantDefinitionParams) -> bool {
    &&& e.definition_id@ == p.definition_id@
    &&& e.assistant_key@ == p.assistant_key@
    &&& e.source@ == p.source@
    &&& e.owner_type@ == p.owner_type@
    &&& option_view(e.source_ref) == option_view(p.source_ref)
    &&& e.name@ == p.name@
    &&& option_view(e.description) == option_view(p.description)
    &&& e.agent_backend@ == p.agent_backend@
    &&& e.rule_resource_type@ == p.rule_resource_type@
    &&& option_view(e.rule_inline_content) == option_view(p.rule_inline_content)
    &&& e.default_model_mode@ == p.default_model_mode@
    &&& option_view(e.default_model_value) == option_view(p.default_model_value)
    &&& e.default_skills_mode@ == p.default_skills_mode@
    &&& e.default_skill_ids@ == p.default_skill_ids@
    &&& e.default_mcps_mode@ == p.default_mcps_mode@
    &&& e.default_mcp_ids@ == p.default_mcp_ids@
}

fn some_text(s: &str) -> (r: Option<String>)
    ensures
        option_view(r) == Some(s@),
{
    Some(String::from_str(s))
}

impl DesiredDefinition {
    /// Whether `existing` already reflects exactly this materialization (the
    /// caller then skips the upsert).
    pub fn matches(&self, existing: &AssistantDefinitionRow) -> (r: bool)
        ensures
            r == desired_matches(*self, *existing),
    {
        str_eq(existing.assistant_key.as_str(), self.assistant_key.as_str()) && str_eq(
            existing.source.as_str(),
            "generated",
        ) && str_eq(existing.owner_type.as_str(), "system") && opt_eq(&existing.source_ref, self.source_ref.as_str())
            && str_eq(existing.name.as_str(), self.name.as_str()) && opt_eq(
            &existing.description,
            self.description.as_str(),
        ) && str_eq(existing.agent_backend.as_str(), GENERATED_AGENT_BACKEND) && str_eq(
            existing.rule_resource_type.as_str(),
            "inline",
        ) && opt_eq(&existing.rule_inline_content, self.rule_inline_content.as_str()) && str_eq(
            existing.default_model_mode.as_str(),
            "fixed",
        ) && opt_eq(&existing.default_model_value, self.default_model_value.as_str()) && str_eq(
            existing.default_skills_mode.as_str(),
            "fixed",
        ) && str_eq(existing.default_skill_ids.as_str(), self.default_skill_ids_json.as_str()) && str_eq(
            existing.default_mcps_mode.as_str(),
            "fixed",
        ) && str_eq(existing.default_mcp_ids.as_str(), self.default_mcp_ids_json.as_str())
    }

    /// The upsert parameters of this materialization under `definition_id`.
    pub fn to_params(&self, definition_id: &str) -> (p: UpsertAssistantDefinitionParams)
        ensures
            params_of(p, *self, definition_id@),
    {
        UpsertAssistantDefinitionParams {
            definition_id: String::from_str(definition_id),
            assistant_key: self.assistant_key.clone(),
            source: String::from_str("generated"),
            owner_type: String::from_str("system"),
            source_ref: some_text(self.source_ref.as_str()),
            source_version: None,
            source_hash: None,
            name: self.name.clone(),
            name_i18n: String::from_str("{}"),
            description: some_text(self.description.as_str()),
            description_i18n: String::from_str("{}"),
            avatar_type: String::from_str("none"),
            avatar_value: None,
            agent_backend: String::from_str(GENERATED_AGENT_BACKEND),
            rule_resource_type: String::from_str("inline"),
            rule_resource_ref: None,
            rule_inline_content: some_text(self.rule_inline_content.as_str()),
            recommended_prompts: String::from_str("[]"),
            recommended_prompts_i18n: String::from_str("{}"),
            default_model_mode: String::from_str("fixed"),
            default_model_value: some_text(self.default_model_value.as_str()),
            default_permission_mode: String::from_str("auto"),
            default_permission_value: None,
            default_skills_mode: String::from_str("fixed"),
            default_skill_ids: self.default_skill_ids_json.clone(),
            custom_skill_names: String::from_str("[]"),
            default_disabled_builtin_skill_ids: String::from_str("[]"),
            default_mcps_mode: String::from_str("fixed"),
            default_mcp_ids: self.default_mcp_ids_json.clone(),
        }
    }
}

fn opt_eq(o: &Option<String>, s: &str) -> (r: bool)
    ensures
        r == (option_view(*o) == Some(s@)),
{
    match o {
        Some(x) => str_eq(x.as_str(), s),
        None => false,
    }
}

/// The row an upsert of `d`'s parameters leaves behind matches `d`.
proof fn written_row_matches(
    d: DesiredDefinition,
    p: UpsertAssistantDefinitionParams,
    definition_id: Seq<char>,
    e: AssistantDefinitionRow,
)
    requires
        params_of(p, d, definition_id),
        row_written_from(e, p),
    ensures
        desired_matches(d, e),
{
}

/// Whether `d` is what the compiler derives from `profile` and its valid
/// definition `v`.
pub open spec fn desired_from(d: DesiredDefinition, profile: AgentProfileRow, v: JsonValue) -> bool {
    &&& d.assistant_key@ == assistant_key_spec(profile.name@)
    &&& d.source_ref@ == profile.id@
    &&& d.name@ == profile.label@
    &&& d.description@ == profile.label@
    &&& d.rule_inline_content@ == text_of(field(v, "soul_md"@))
    &&& d.default_model_value@ == text_of(field(field(v, "model"@).unwrap(), "primary"@))
    &&& d.default_skill_ids_json@ == json_string_array(texts_of(field(v, "skills"@)))
    &&& d.default_mcp_ids_json@ == json_string_array(texts_of(field(v, "mcp_allowlist"@)))
}

/// What the compiler derives from `profile` and its parsed definition.
pub fn desired_definition(profile: &AgentProfileRow, parsed: &ProfileDefinition, Ghost(v): Ghost<JsonValue>) -> (d:
    DesiredDefinition)
    requires
        describes(*parsed, v),
    ensures
        desired_from(d, *profile, v),
{
    DesiredDefinition {
        assistant_key: assistant_key_for_profile(profile.name.as_str()),
        source_ref: profile.id.clone(),
        name: profile.label.clone(),
        description: profile.label.clone(),
        rule_inline_content: parsed.soul_md.clone(),
        default_model_value: parsed.model.primary.clone(),
        default_skill_ids_json: encode_json_array(&parsed.skills),
        default_mcp_ids_json: encode_json_array(&parsed.mcp_allowlist),
    }
}

/// Whether the stored row `e` already holds what the compiler derives from
/// `profile` and its definition `v`.
pub open spec fn row_matches_profile(e: AssistantDefinitionRow, profile: AgentProfileRow, v: JsonValue) -> bool {
    exists|d: DesiredDefinition| desired_from(d, profile, v) && #[trigger] desired_matches(d, e)
}

/// Whether `p` upserts what the compiler derives from `profile` and `v`
/// under `definition_id`.
pub open spec fn upsert_of_profile(
    p: UpsertAssistantDefinitionParams,
    profile: AgentProfileRow,
    v: JsonValue,
    definition_id: Seq<char>,
) -> bool {
    exists|d: DesiredDefinition| desired_from(d, profile, v) && #[trigger] params_of(p, d, definition_id)
}

/// The next step of a materialization.
#[derive(Debug, Clone)]
pub enum MaterializeStep {
    /// Nothing to write: the outcome is final.
    Done(MaterializeOutcome),
    /// Soft-delete the generated assistant definition with this id, then
    /// report [`retire_outcome`] of the answer.
    Retire(String),
    /// Upsert these parameters; the outcome is then the one given.
    Upsert(UpsertAssistantDefinitionParams, MaterializeOutcome),
}

/// The retirement step for a profile that is inactive or no longer compiled
/// to `copilot`: nothing to do without a generated assistant.
pub open spec fn retire_step_ok(r: MaterializeStep, existing: Option<AssistantDefinitionRow>) -> bool {
    match existing {
        Some(e) => r matches MaterializeStep::Retire(id) && id@ == e.definition_id@,
        None => r == MaterializeStep::Done(MaterializeOutcome::NotApplicable),
    }
}

fn retire_if_present(existing: &Option<AssistantDefinitionRow>) -> (r: MaterializeStep)
    ensures
        retire_step_ok(r, *existing),
{
    match existing {
        Some(e) => MaterializeStep::Retire(e.definition_id.clone()),
        None => MaterializeStep::Done(MaterializeOutcome::NotApplicable),
    }
}

/// The outcome of a retirement: `Retired` when the soft delete removed the
/// row, `NotApplicable` when it was already gone.
pub fn retire_outcome(removed: bool) -> (r: MaterializeOutcome)
    ensures
        removed ==> r == MaterializeOutcome::Retired,
        !removed ==> r == MaterializeOutcome::NotApplicable,
{
    if removed {
        MaterializeOutcome::Retired
    } else {
        MaterializeOutcome::NotApplicable
    }
}

/// Whether `copilot` is among the engines of `v`.
pub open spec fn compiles_to_copilot(v: JsonValue) -> bool {
    texts_of(field(v, "engines"@)).contains("copilot"@)
}

/// The message of a definition that fails validation.
pub open spec fn schema_failure_message(detail: Seq<char>) -> Seq<char> {
    "profile definition failed schema validation: "@ + detail
}

/// Plans the materialization of `profile`, given its parsed definition (or
/// the parser's message), what the typed parse of that definition reported
/// (`None` when it accepted it), the assistant currently generated from
/// it, and a fresh id for a definition that does not exist yet:
/// - inactive profile, or one without `copilot`: retire what exists;
/// - a definition that is not JSON or fails validation: 400;
/// - an existing row that already matches: `Unchanged`, nothing written;
/// - otherwise an upsert, keeping the existing definition id (`Updated`) or
///   using the fresh one (`Created`).
pub fn plan_materialization(
    profile: &AgentProfileRow,
    definition: &Result<JsonValue, String>,
    typed_error: &Option<String>,
    existing: &Option<AssistantDefinitionRow>,
    fresh_id: &str,
) -> (r: Result<MaterializeStep, AssistantError>)
    ensures
        !profile.is_active ==> (r matches Ok(step) && retire_step_ok(step, *existing)),
        profile.is_active ==> match *definition {
            Err(detail) => r matches Err(AssistantError::BadRequest(m)) && m@ == schema_failure_message(
                "definition is not valid JSON: "@ + detail@,
            ),
            Ok(v) => match profile_error(v, option_view(*typed_error), profile.name@) {
                Some(msg) => r matches Err(AssistantError::BadRequest(m)) && m@ == schema_failure_message(msg),
                None => if !compiles_to_copilot(v) {
                    r matches Ok(step) && retire_step_ok(step, *existing)
                } else {
                    match *existing {
                        Some(e) => if row_matches_profile(e, *profile, v) {
                            r == Ok::<MaterializeStep, AssistantError>(
                                MaterializeStep::Done(MaterializeOutcome::Unchanged),
                            )
                        } else {
                            r matches Ok(MaterializeStep::Upsert(p, MaterializeOutcome::Updated))
                                && upsert_of_profile(p, *profile, v, e.definition_id@)
                        },
                        None => r matches Ok(MaterializeStep::Upsert(p, MaterializeOutcome::Created))
                            && upsert_of_profile(p, *profile, v, fresh_id@),
                    }
                },
            },
        },
{
    if !profile.is_active {
        return Ok(retire_if_present(existing));
    }
    let v = match definition {
        Err(detail) => {
            let mut m = String::from_str("profile definition failed schema validation: ");
            m.append("definition is not valid JSON: ");
            m.append(detail.as_str());
            return Err(AssistantError::BadRequest(m));
        },
        Ok(v) => v,
    };
    let parsed = match parse_profile_value(v, typed_error, profile.name.as_str()) {
        Err(e) => {
            let mut m = String::from_str("profile definition failed schema validation: ");
            m.append(e.0.as_str());
            return Err(AssistantError::BadRequest(m));
        },
        Ok(p) => p,
    };
    let mut has_copilot = false;
    let mut i: usize = 0;
    while i < parsed.engines.len()
        invariant
            i <= parsed.engines@.len(),
            has_copilot == exists|j: int| 0 <= j < i && (#[trigger] parsed.engines@[j])@ == "copilot"@,
        decreases parsed.engines.len() - i,
    {
        if str_eq(parsed.engines[i].as_str(), "copilot") {
            has_copilot = true;
        }
        i += 1;
    }
    proof {
        let names = views(parsed.engines@);
        if has_copilot {
            let j = choose|j: int| 0 <= j < i && (#[trigger] parsed.engines@[j])@ == "copilot"@;
            assert(names[j] == "copilot"@);
        } else {
            assert forall|j: int| 0 <= j < names.len() implies names[j] != "copilot"@ by {
                assert(names[j] == parsed.engines@[j]@);
            }
        }
    }
    if !has_copilot {
        return Ok(retire_if_present(existing));
    }
    let desired = desired_definition(profile, &parsed, Ghost(*v));
    match existing {
        Some(e) => {
            if desired.matches(e) {
                return Ok(MaterializeStep::Done(MaterializeOutcome::Unchanged));
            }
            proof {
                assert forall|d: DesiredDefinition| desired_from(d, *profile, *v) implies !#[trigger] desired_matches(
                    d,
                    *e,
                ) by {
                    assert(d.assistant_key@ == desired.assistant_key@);
                }
            }
            let p = desired.to_params(e.definition_id.as_str());
            Ok(MaterializeStep::Upsert(p, MaterializeOutcome::Updated))
        },
        None => {
            let p = desired.to_params(fresh_id);
            Ok(MaterializeStep::Upsert(p, MaterializeOutcome::Created))
        },
    }
}

/// Idempotence: after the upsert a materialization plans is stored, the
/// stored row matches the same profile and definition, so materializing it
/// again is `Unchanged` and writes nothing.
pub proof fn rematerializing_is_a_no_op(
    profile: AgentProfileRow,
    v: JsonValue,
    p: UpsertAssistantDefinitionParams,
    definition_id: Seq<char>,
    stored: AssistantDefinitionRow,
)
    requires
        upsert_of_profile(p, profile, v, definition_id),
        row_written_from(stored, p),
    ensures
        row_matches_profile(stored, profile, v),
{
    let d = choose|d: DesiredDefinition| desired_from(d, profile, v) && #[trigger] params_of(p, d, definition_id);
    written_row_matches(d, p, definition_id, stored);
}

/// The generated assistant carries its profile: it is named and described
/// by the profile's label, keyed by `profile:{name}`, points back at the
/// profile's id, and is stored under the given definition id as a
/// system-owned generated assistant.
pub proof fn the_upsert_carries_the_profile(
    p: UpsertAssistantDefinitionParams,
    profile: AgentProfileRow,
    v: JsonValue,
    definition_id: Seq<char>,
)
    requires
        upsert_of_profile(p, profile, v, definition_id),
    ensures
        p.name@ == profile.label@,
        option_view(p.description) == Some(profile.label@),
        p.assistant_key@ == "profile:"@ + profile.name@,
        option_view(p.source_ref) == Some(profile.id@),
        p.definition_id@ == definition_id,
        p.source@ == "generated"@,
        p.owner_type@ == "system"@,
{
    let d = choose|d: DesiredDefinition| desired_from(d, profile, v) && #[trigger] params_of(p, d, definition_id);
}

/// The generated assistant's instructions, model and lists come from the
/// definition: the rule text is `soul_md`, the model is `model.primary`,
/// and the skills and MCP ids are the definition's `skills` and
/// `mcp_allowlist` as JSON arrays, all in fixed mode.
pub proof fn the_upsert_carries_the_definition(
    p: UpsertAssistantDefinitionParams,
    profile: AgentProfileRow,
    v: JsonValue,
    definition_id: Seq<char>,
)
    requires
        upsert_of_profile(p, profile, v, definition_id),
    ensures
        option_view(p.rule_inline_content) == Some(text_of(field(v, "soul_md"@))),
        option_view(p.default_model_value) == Some(text_of(field(field(v, "model"@).unwrap(), "primary"@))),
        p.default_skill_ids@ == json_string_array(texts_of(field(v, "skills"@))),
        p.default_mcp_ids@ == json_string_array(texts_of(field(v, "mcp_allowlist"@))),
        p.default_model_mode@ == "fixed"@,
        p.default_skills_mode@ == "fixed"@,
        p.default_mcps_mode@ == "fixed"@,
{
    let d = choose|d: DesiredDefinition| desired_from(d, profile, v) && #[trigger] params_of(p, d, definition_id);
}

} // verus!
