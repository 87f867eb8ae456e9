use aionui::json::{member, number_less, JsonValue};
use aionui::session::{ConversationContext, FactoryContext, WorkspaceContext};

#[test]
fn number_order_follows_f64() {
    let vals = [-10.5f64, -1.0, -0.0, 0.0, 1e-300, 2.0, 1e300];
    for a in vals {
        for b in vals {
            assert_eq!(number_less(a.to_bits(), b.to_bits()), a < b, "{a} < {b}");
        }
    }
}

#[test]
fn member_lookup_takes_the_first_match() {
    let members = vec![
        ("a".to_string(), JsonValue::Bool(true)),
        ("b".to_string(), JsonValue::Null),
        ("a".to_string(), JsonValue::Bool(false)),
    ];
    assert!(matches!(member(&members, "a"), Some(JsonValue::Bool(true))));
    assert!(matches!(member(&members, "b"), Some(JsonValue::Null)));
    assert!(member(&members, "c").is_none());
}

#[test]
fn factory_context_projects_the_session() {
    let conversation = ConversationContext {
        conversation_id: "c1".into(),
        user_id: "u1".into(),
        roles: vec!["tecnica".into()],
        project_id: Some("p1".into()),
        profile_id: None,
        agent_type: "acp".into(),
        source: None,
    };
    let workspace = WorkspaceContext { path: "/w".into(), stored_path: String::new(), is_custom: true };
    let f = FactoryContext::resolve(&conversation, &workspace);
    assert_eq!(f.conversation_id, "c1");
    assert_eq!(f.roles, vec!["tecnica"]);
    assert_eq!(f.project_id.as_deref(), Some("p1"));
    assert_eq!(f.workspace, "/w");
    assert!(f.is_custom_workspace);
}
