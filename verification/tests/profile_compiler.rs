use aionui::json::JsonValue;
use aionui::models::AgentProfileRow;
use aionui::profile_compiler::{
    assistant_key_for_profile, encode_json_array, plan_materialization, retire_outcome, AssistantDefinitionRow,
    AssistantError, MaterializeOutcome, MaterializeStep, UpsertAssistantDefinitionParams,
};

fn to_json(v: serde_json::Value) -> JsonValue {
    match v {
        serde_json::Value::Null => JsonValue::Null,
        serde_json::Value::Bool(b) => JsonValue::Bool(b),
        serde_json::Value::Number(n) => JsonValue::Number(n.as_f64().unwrap().to_bits()),
        serde_json::Value::String(s) => JsonValue::Str(s),
        serde_json::Value::Array(a) => JsonValue::Array(a.into_iter().map(to_json).collect()),
        serde_json::Value::Object(m) => JsonValue::Object(m.into_iter().map(|(k, v)| (k, to_json(v))).collect()),
    }
}

fn definition(name: &str, engines: &str, soul_md: &str) -> Result<JsonValue, String> {
    let raw = format!(
        r##"{{
            "name": "{name}", "label": "Label {name}", "engines": {engines}, "soul_md": "{soul_md}",
            "model": {{ "primary": "zai/glm-5.1", "fallbacks": [] }},
            "mcp_allowlist": ["ingelmec-kb"], "skills": ["alcance-bom"], "kb_scope": [],
            "channels": [{{ "type": "web" }}],
            "caps": {{ "soft_usd": 1.0, "hard_usd": 2.0, "period": "month" }},
            "acl": {{ "etiqueta": "interno", "roles": ["admin"] }}
        }}"##
    );
    serde_json::from_str::<serde_json::Value>(&raw).map(to_json).map_err(|e| e.to_string())
}

fn profile(name: &str, active: bool) -> AgentProfileRow {
    AgentProfileRow {
        id: format!("id-{name}"),
        name: name.to_string(),
        label: format!("Label {name}"),
        definition: String::new(),
        is_active: active,
        created_at: 0,
        updated_at: 0,
    }
}

/// The row the store keeps after an upsert of `p`.
fn stored(p: &UpsertAssistantDefinitionParams) -> AssistantDefinitionRow {
    AssistantDefinitionRow {
        definition_id: p.definition_id.clone(),
        assistant_key: p.assistant_key.clone(),
        source: p.source.clone(),
        owner_type: p.owner_type.clone(),
        source_ref: p.source_ref.clone(),
        name: p.name.clone(),
        description: p.description.clone(),
        agent_backend: p.agent_backend.clone(),
        rule_resource_type: p.rule_resource_type.clone(),
        rule_inline_content: p.rule_inline_content.clone(),
        default_model_mode: p.default_model_mode.clone(),
        default_model_value: p.default_model_value.clone(),
        default_skills_mode: p.default_skills_mode.clone(),
        default_skill_ids: p.default_skill_ids.clone(),
        default_mcps_mode: p.default_mcps_mode.clone(),
        default_mcp_ids: p.default_mcp_ids.clone(),
    }
}

#[test]
fn assistant_key_is_prefixed_profile_name() {
    assert_eq!(assistant_key_for_profile("ingenieria"), "profile:ingenieria");
    assert_eq!(assistant_key_for_profile(""), "profile:");
}

#[test]
fn json_arrays_are_serde_json_text() {
    assert_eq!(encode_json_array(&vec!["alcance-bom".to_string()]), r#"["alcance-bom"]"#);
    assert_eq!(encode_json_array(&vec![]), "[]");
    assert_eq!(encode_json_array(&vec!["a\"b".to_string(), "c".to_string()]), r#"["a\"b","c"]"#);
}

#[test]
fn materializes_new_assistant_for_copilot_profile() {
    let p = profile("ingenieria", true);
    let def = definition("ingenieria", r#"["copilot"]"#, "# Ingeniería");
    match plan_materialization(&p, &def, &None, &None, "asstdef-1").unwrap() {
        MaterializeStep::Upsert(params, outcome) => {
            assert_eq!(outcome, MaterializeOutcome::Created);
            assert_eq!(params.definition_id, "asstdef-1");
            assert_eq!(params.assistant_key, "profile:ingenieria");
            assert_eq!(params.source, "generated");
            assert_eq!(params.owner_type, "system");
            assert_eq!(params.source_ref.as_deref(), Some("id-ingenieria"));
            assert_eq!(params.rule_resource_type, "inline");
            assert_eq!(params.rule_inline_content.as_deref(), Some("# Ingeniería"));
            assert_eq!(params.default_model_mode, "fixed");
            assert_eq!(params.default_model_value.as_deref(), Some("zai/glm-5.1"));
            assert_eq!(params.default_skill_ids, r#"["alcance-bom"]"#);
            assert_eq!(params.default_mcp_ids, r#"["ingelmec-kb"]"#);
            assert_eq!(params.agent_backend, "aionrs");
        }
        other => panic!("expected an upsert, got {:?}", other),
    }
}

#[test]
fn ignores_profile_without_copilot_engine() {
    let p = profile("servimec-tko", true);
    let def = definition("servimec-tko", r#"["hermes"]"#, "# TKO");
    assert!(matches!(
        plan_materialization(&p, &def, &None, &None, "x").unwrap(),
        MaterializeStep::Done(MaterializeOutcome::NotApplicable)
    ));
}

#[test]
fn rematerializing_unchanged_profile_is_noop() {
    let p = profile("preventa", true);
    let def = definition("preventa", r#"["copilot"]"#, "# Preventa");
    let first = match plan_materialization(&p, &def, &None, &None, "asstdef-9").unwrap() {
        MaterializeStep::Upsert(params, _) => stored(&params),
        other => panic!("expected an upsert, got {:?}", other),
    };
    assert!(matches!(
        plan_materialization(&p, &def, &None, &Some(first), "other").unwrap(),
        MaterializeStep::Done(MaterializeOutcome::Unchanged)
    ));
}

#[test]
fn changing_soul_md_updates_and_keeps_the_definition_id() {
    let p = profile("preventa", true);
    let v1 = definition("preventa", r#"["copilot"]"#, "# v1");
    let row = match plan_materialization(&p, &v1, &None, &None, "asstdef-7").unwrap() {
        MaterializeStep::Upsert(params, _) => stored(&params),
        other => panic!("expected an upsert, got {:?}", other),
    };
    let v2 = definition("preventa", r#"["copilot"]"#, "# v2 (cambio real)");
    match plan_materialization(&p, &v2, &None, &Some(row), "fresh").unwrap() {
        MaterializeStep::Upsert(params, outcome) => {
            assert_eq!(outcome, MaterializeOutcome::Updated);
            assert_eq!(params.definition_id, "asstdef-7");
            assert_eq!(params.rule_inline_content.as_deref(), Some("# v2 (cambio real)"));
        }
        other => panic!("expected an upsert, got {:?}", other),
    }
}

#[test]
fn deactivating_profile_retires_the_materialized_assistant() {
    let p = profile("preventa", true);
    let def = definition("preventa", r#"["copilot"]"#, "# Preventa");
    let row = match plan_materialization(&p, &def, &None, &None, "asstdef-3").unwrap() {
        MaterializeStep::Upsert(params, _) => stored(&params),
        other => panic!("expected an upsert, got {:?}", other),
    };
    let inactive = profile("preventa", false);
    match plan_materialization(&inactive, &def, &None, &Some(row), "x").unwrap() {
        MaterializeStep::Retire(id) => assert_eq!(id, "asstdef-3"),
        other => panic!("expected a retirement, got {:?}", other),
    }
    assert_eq!(retire_outcome(true), MaterializeOutcome::Retired);
    assert_eq!(retire_outcome(false), MaterializeOutcome::NotApplicable);
    assert!(matches!(
        plan_materialization(&inactive, &def, &None, &None, "x").unwrap(),
        MaterializeStep::Done(MaterializeOutcome::NotApplicable)
    ));
}

#[test]
fn removing_copilot_from_engines_retires_previously_materialized_assistant() {
    let p = profile("ingenieria", true);
    let with_copilot = definition("ingenieria", r#"["hermes", "copilot"]"#, "# Ingeniería");
    let row = match plan_materialization(&p, &with_copilot, &None, &None, "asstdef-5").unwrap() {
        MaterializeStep::Upsert(params, _) => stored(&params),
        other => panic!("expected an upsert, got {:?}", other),
    };
    let without = definition("ingenieria", r#"["hermes"]"#, "# Ingeniería");
    match plan_materialization(&p, &without, &None, &Some(row), "x").unwrap() {
        MaterializeStep::Retire(id) => assert_eq!(id, "asstdef-5"),
        other => panic!("expected a retirement, got {:?}", other),
    }
}

#[test]
fn invalid_definitions_are_bad_requests() {
    let p = profile("x", true);
    let bad_json: Result<JsonValue, String> = Err("EOF while parsing".to_string());
    assert_eq!(
        plan_materialization(&p, &bad_json, &None, &None, "id").unwrap_err(),
        AssistantError::BadRequest(
            "profile definition failed schema validation: definition is not valid JSON: EOF while parsing".into()
        )
    );
    let other_name = definition("y", r#"["copilot"]"#, "s");
    assert_eq!(
        plan_materialization(&p, &other_name, &None, &None, "id").unwrap_err(),
        AssistantError::BadRequest(
            "profile definition failed schema validation: definition.name ('y') must match the profile's name ('x')"
                .into()
        )
    );
    let inactive = profile("x", false);
    assert!(plan_materialization(&inactive, &bad_json, &None, &None, "id").is_ok());
}

#[test]
fn json_arrays_escape_controls_and_keep_other_characters() {
    let v = vec!["l\n\u{1}\\é".to_string(), "\t\u{1f}".to_string()];
    assert_eq!(encode_json_array(&v), "[\"l\\n\\u0001\\\\é\",\"\\t\\u001f\"]");
}
