use aionui::json::JsonValue;
use aionui::profile_schema::{parse_profile_value, validate_profile_value, ProfileSchemaError};

/// The document as the binary hands it to the library.
fn to_json(v: serde_json::Value) -> JsonValue {
    match v {
        serde_json::Value::Null => JsonValue::Null,
        serde_json::Value::Bool(b) => JsonValue::Bool(b),
        serde_json::Value::Number(n) => JsonValue::Number(n.as_f64().unwrap().to_bits()),
        serde_json::Value::String(s) => JsonValue::Str(s),
        serde_json::Value::Array(a) => JsonValue::Array(a.into_iter().map(to_json).collect()),
        serde_json::Value::Object(m) => JsonValue::Object(m.into_iter().map(|(k, v)| (k, to_json(v))).collect()),
    }
}

/// Parses and validates raw definition text, as the admin endpoints do (the
/// typed parse is left out here: its report is `None`, and the library's own
/// structural check speaks).
fn validate_profile_definition(raw: &str, expected_name: &str) -> Result<(), ProfileSchemaError> {
    match serde_json::from_str::<serde_json::Value>(raw) {
        Ok(v) => validate_profile_value(&to_json(v), &None, expected_name),
        Err(e) => Err(ProfileSchemaError(format!("definition is not valid JSON: {e}"))),
    }
}

fn valid_json(name: &str) -> String {
    format!(
        r##"{{
            "name": "{name}",
            "label": "Test",
            "engines": ["hermes"],
            "soul_md": "# Test",
            "model": {{ "primary": "zai/glm-5.1", "fallbacks": [] }},
            "mcp_allowlist": [],
            "skills": [],
            "kb_scope": [],
            "channels": [{{ "type": "web" }}],
            "caps": {{ "soft_usd": 1.0, "hard_usd": 2.0, "period": "month" }},
            "acl": {{ "etiqueta": "interno", "roles": ["admin"] }}
        }}"##
    )
}

fn with(field_json: &str) -> String {
    format!(
        r##"{{
            "name": "x", "label": "X", "engines": ["hermes"], "soul_md": "s",
            "model": {{"primary": "m", "fallbacks": []}}, "mcp_allowlist": [], "skills": [],
            "kb_scope": [], "channels": [], "caps": {{"soft_usd":1.0,"hard_usd":2.0,"period":"month"}},
            "acl": {{"etiqueta":"interno","roles":[]}}{field_json}
        }}"##
    )
}

#[test]
fn accepts_valid_profile() {
    let json = valid_json("ingenieria");
    assert!(validate_profile_definition(&json, "ingenieria").is_ok());
}

#[test]
fn rejects_invalid_json() {
    let err = validate_profile_definition("{not json", "x").unwrap_err();
    assert!(err.0.contains("not valid JSON"));
}

#[test]
fn rejects_unknown_top_level_field() {
    let json = r##"{
        "name": "x", "label": "X", "engines": ["hermes"], "soul_md": "s",
        "model": {"primary": "m", "fallbacks": []}, "mcp_allowlist": [], "skills": [],
        "kb_scope": [], "channels": [], "caps": {"soft_usd":1.0,"hard_usd":2.0,"period":"month"},
        "acl": {"etiqueta":"interno","roles":[]},
        "totally_unknown_field": true
    }"##;
    let err = validate_profile_definition(json, "x").unwrap_err();
    assert!(err.0.contains("unknown field"), "got: {}", err.0);
    assert!(err.0.contains("totally_unknown_field"));
}

#[test]
fn rejects_unknown_nested_field() {
    let json = r##"{
        "name": "x", "label": "X", "engines": ["hermes"], "soul_md": "s",
        "model": {"primary": "m", "fallbacks": [], "sneaky": 1}, "mcp_allowlist": [], "skills": [],
        "kb_scope": [], "channels": [], "caps": {"soft_usd":1.0,"hard_usd":2.0,"period":"month"},
        "acl": {"etiqueta":"interno","roles":[]}
    }"##;
    let err = validate_profile_definition(json, "x").unwrap_err();
    assert!(err.0.contains("definition.model.sneaky"), "got: {}", err.0);
}

#[test]
fn rejects_name_mismatch() {
    let json = valid_json("ingenieria");
    let err = validate_profile_definition(&json, "otro").unwrap_err();
    assert!(err.0.contains("must match"));
}

#[test]
fn rejects_invalid_engine() {
    let json = r##"{
        "name": "x", "label": "X", "engines": ["not-a-real-engine"], "soul_md": "s",
        "model": {"primary": "m", "fallbacks": []}, "mcp_allowlist": [], "skills": [],
        "kb_scope": [], "channels": [], "caps": {"soft_usd":1.0,"hard_usd":2.0,"period":"month"},
        "acl": {"etiqueta":"interno","roles":[]}
    }"##;
    let err = validate_profile_definition(json, "x").unwrap_err();
    assert!(err.0.contains("invalid value"));
}

#[test]
fn rejects_empty_engines() {
    let json = r##"{
        "name": "x", "label": "X", "engines": [], "soul_md": "s",
        "model": {"primary": "m", "fallbacks": []}, "mcp_allowlist": [], "skills": [],
        "kb_scope": [], "channels": [], "caps": {"soft_usd":1.0,"hard_usd":2.0,"period":"month"},
        "acl": {"etiqueta":"interno","roles":[]}
    }"##;
    let err = validate_profile_definition(json, "x").unwrap_err();
    assert!(err.0.contains("must not be empty"));
}

#[test]
fn rejects_invalid_period() {
    let json = r##"{
        "name": "x", "label": "X", "engines": ["hermes"], "soul_md": "s",
        "model": {"primary": "m", "fallbacks": []}, "mcp_allowlist": [], "skills": [],
        "kb_scope": [], "channels": [], "caps": {"soft_usd":1.0,"hard_usd":2.0,"period":"fortnight"},
        "acl": {"etiqueta":"interno","roles":[]}
    }"##;
    let err = validate_profile_definition(json, "x").unwrap_err();
    assert!(err.0.contains("caps.period"));
}

#[test]
fn rejects_hard_below_soft() {
    let json = r##"{
        "name": "x", "label": "X", "engines": ["hermes"], "soul_md": "s",
        "model": {"primary": "m", "fallbacks": []}, "mcp_allowlist": [], "skills": [],
        "kb_scope": [], "channels": [], "caps": {"soft_usd":5.0,"hard_usd":2.0,"period":"month"},
        "acl": {"etiqueta":"interno","roles":[]}
    }"##;
    let err = validate_profile_definition(json, "x").unwrap_err();
    assert!(err.0.contains("hard_usd must be >= soft_usd"));
}

#[test]
fn rejects_missing_required_field() {
    let json = r##"{
        "name": "x", "label": "X", "engines": ["hermes"], "soul_md": "s",
        "mcp_allowlist": [], "skills": [], "kb_scope": [], "channels": [],
        "caps": {"soft_usd":1.0,"hard_usd":2.0,"period":"month"},
        "acl": {"etiqueta":"interno","roles":[]}
    }"##;
    let err = validate_profile_definition(json, "x").unwrap_err();
    assert!(err.0.contains("missing/invalid required field"));
}

#[test]
fn accepts_all_three_example_profiles_from_schema_doc() {
    let ingenieria = r##"{
        "name": "ingenieria",
        "label": "Ingeniería (role-pack)",
        "engines": ["hermes", "openclaw"],
        "soul_md": "# Ingeniería Ingelmec",
        "model": { "primary": "zai/glm-5.1", "fallbacks": ["openrouter/anthropic/haiku-4-5"] },
        "mcp_allowlist": ["ingelmec-kb", "zoho-mail", "dxf-takeoff", "hvac-calc"],
        "skills": ["ingenieria/electrico", "ingenieria/hvac", "ingenieria/fire", "ingenieria/data", "alcance-bom"],
        "kb_scope": ["normas", "boletas", "proyectos-tecnicos"],
        "channels": [{ "type": "web" }, { "type": "telegram", "binding": "per-user" }],
        "caps": { "soft_usd": 5.0, "hard_usd": 10.0, "period": "month" },
        "acl": { "etiqueta": "interno", "roles": ["ingenieria", "admin"] }
    }"##;
    assert!(validate_profile_definition(ingenieria, "ingenieria").is_ok());

    let tko = r##"{
        "name": "servimec-tko",
        "label": "ServiMec — Soporte técnico TKO",
        "engines": ["hermes"],
        "soul_md": "# ServiMec TKO",
        "model": { "primary": "zai/glm-5.1", "fallbacks": ["openrouter/anthropic/haiku-4-5", "openrouter/qwen/qwen3-coder"] },
        "mcp_allowlist": ["ingelmec-kb"],
        "skills": [],
        "kb_scope": ["boletas", "tko"],
        "channels": [{ "type": "telegram", "binding": "per-user" }],
        "caps": { "soft_usd": 3.0, "hard_usd": 6.0, "period": "month" },
        "acl": { "etiqueta": "interno", "roles": ["tecnica", "admin"] }
    }"##;
    assert!(validate_profile_definition(tko, "servimec-tko").is_ok());

    let preventa = r##"{
        "name": "preventa",
        "label": "Preventa MEP",
        "engines": ["openclaw"],
        "soul_md": "# Preventa MEP",
        "model": { "primary": "zai/glm-5.1", "fallbacks": ["openrouter/anthropic/haiku-4-5"] },
        "mcp_allowlist": ["ingelmec-kb", "zoho-mail", "dxf-takeoff", "docgen"],
        "skills": ["alcance-bom", "ingenieria/electrico", "ingenieria/hvac"],
        "kb_scope": ["normas", "biblioteca-lineas", "proyectos-comerciales"],
        "channels": [{ "type": "web" }],
        "caps": { "soft_usd": 4.0, "hard_usd": 8.0, "period": "month" },
        "acl": { "etiqueta": "interno", "roles": ["comercial", "tecnica", "admin"] }
    }"##;
    assert!(validate_profile_definition(preventa, "preventa").is_ok());
}

#[test]
fn exact_messages_of_each_rule() {
    let err = |raw: &str| validate_profile_definition(raw, "x").unwrap_err().0;
    assert_eq!(err("[1]"), "'definition' must be a JSON object");
    assert_eq!(err(&with(r#", "zz": 1"#)), "definition contains unknown field 'definition.zz'");
    assert_eq!(
        validate_profile_definition(&with(""), "y").unwrap_err().0,
        "definition.name ('x') must match the profile's name ('y')"
    );
    assert_eq!(
        err(&with("").replace(r#""engines": ["hermes"]"#, r#""engines": ["hermes", "zz"]"#)),
        "definition.engines contains invalid value 'zz' (must be one of: hermes, openclaw, copilot)"
    );
    assert_eq!(
        err(&with("").replace(r#""channels": []"#, r#""channels": [{"type": "  "}]"#)),
        "definition.channels[].type must not be empty"
    );
    assert_eq!(
        err(&with("").replace(r#""soft_usd":1.0"#, r#""soft_usd":-1"#)),
        "definition.caps.soft_usd and hard_usd must be non-negative"
    );
    assert_eq!(
        err(&with("").replace(r#""primary": "m""#, r#""primary": " ""#)),
        "definition.model.primary must not be empty"
    );
    assert_eq!(
        err(&with("").replace(r#""model": {"primary": "m", "fallbacks": []}"#, r#""model": 3"#)),
        "'definition.model' must be a JSON object"
    );
    assert_eq!(
        err(&with("").replace(r#""channels": []"#, r#""channels": [{"type": "web", "x": 1}]"#)),
        "definition contains unknown field 'definition.channels[].x'"
    );
    assert_eq!(
        err(&with("").replace(r#""label": "X""#, r#""label": 7"#)),
        "definition missing/invalid required field: invalid type for field `label`"
    );
    assert_eq!(
        err(&with("").replace(r#""model": {"primary": "m", "fallbacks": []}"#, r#""model": {"fallbacks": []}"#)),
        "definition missing/invalid required field: missing field `primary`"
    );
}

#[test]
fn copilot_engine_is_accepted_and_zero_caps_are_fine() {
    let json = with("")
        .replace(r#""engines": ["hermes"]"#, r#""engines": ["copilot"]"#)
        .replace(r#""soft_usd":1.0,"hard_usd":2.0"#, r#""soft_usd":0,"hard_usd":-0.0"#);
    assert!(validate_profile_definition(&json, "x").is_ok());
}

#[test]
fn parsed_profile_holds_the_definition() {
    let v: serde_json::Value = serde_json::from_str(&valid_json("p")).unwrap();
    let p = parse_profile_value(&to_json(v), &None, "p").unwrap();
    assert_eq!(p.name, "p");
    assert_eq!(p.engines, vec!["hermes"]);
    assert_eq!(p.model.primary, "zai/glm-5.1");
    assert_eq!(p.channels.len(), 1);
    assert_eq!(p.channels[0].kind, "web");
    assert_eq!(p.channels[0].binding, None);
    assert_eq!(f64::from_bits(p.caps.hard_usd), 2.0);
    assert_eq!(p.caps.period, "month");
    assert_eq!(p.acl.roles, vec!["admin"]);
}

#[test]
fn the_typed_parse_words_structural_errors() {
    let v: serde_json::Value = serde_json::from_str(&valid_json("x")).unwrap();
    let report = Some("invalid type: string \"hermes\", expected a sequence".to_string());
    assert_eq!(
        validate_profile_value(&to_json(v.clone()), &report, "x"),
        Err(ProfileSchemaError(
            "definition missing/invalid required field: invalid type: string \"hermes\", expected a sequence".into()
        ))
    );
    // Unknown fields are checked first.
    let mut extra = v.as_object().unwrap().clone();
    extra.insert("sneaky".into(), serde_json::Value::Bool(true));
    let err = validate_profile_value(&to_json(serde_json::Value::Object(extra)), &report, "x").unwrap_err();
    assert!(err.0.contains("unknown field"), "got: {}", err.0);
    // With no report, the same value is valid.
    assert_eq!(validate_profile_value(&to_json(v), &None, "x"), Ok(()));
}
