use aionui::models::{AgentProfileUpdate, ProjectUpdate, TaskUpdate};
use aionui::statements::{
    join_with, profile_update_statement, profiles_by_ids_statement, project_update_statement, task_update_statement,
    templates_statement, usage_summary_statement, SqlValue, Statement,
};
use aionui::usage::UsageQueryFilters;

fn text(s: &str) -> SqlValue {
    SqlValue::Text(s.to_string())
}

#[test]
fn join_with_separates_consecutive_parts() {
    assert_eq!(join_with(&vec![], ", "), "");
    assert_eq!(join_with(&vec!["a".to_string()], ", "), "a");
    assert_eq!(join_with(&vec!["a".to_string(), "b".to_string(), "c".to_string()], ", "), "a, b, c");
}

#[test]
fn task_update_sets_only_given_columns_in_order() {
    let update = TaskUpdate { title: Some("New".into()), order_index: Some(3), ..Default::default() };
    assert_eq!(
        task_update_statement("t1", update, 1000),
        Some(Statement {
            sql: "UPDATE tasks SET title = ?, order_index = ?, updated_at = ? WHERE id = ?".into(),
            binds: vec![text("New"), SqlValue::Integer(3), SqlValue::Integer(1000), text("t1")],
        })
    );
}

#[test]
fn task_update_clears_nullable_columns() {
    let update = TaskUpdate {
        instructions: Some(None),
        assignee_kind: Some("agent".into()),
        assignee_id: Some(Some("bot".into())),
        requires_human_review: Some(false),
        ..Default::default()
    };
    assert_eq!(
        task_update_statement("t2", update, 7),
        Some(Statement {
            sql: "UPDATE tasks SET instructions = ?, assignee_kind = ?, assignee_id = ?, requires_human_review = ?, updated_at = ? WHERE id = ?".into(),
            binds: vec![
                SqlValue::Null,
                text("agent"),
                text("bot"),
                SqlValue::Boolean(false),
                SqlValue::Integer(7),
                text("t2")
            ],
        })
    );
}

#[test]
fn empty_updates_write_nothing() {
    assert_eq!(task_update_statement("t", TaskUpdate::default(), 1), None);
    assert_eq!(project_update_statement("p", ProjectUpdate::default(), 1), None);
    assert_eq!(profile_update_statement("a", AgentProfileUpdate::default(), 1), None);
}

#[test]
fn project_update_appends_updated_at() {
    let update = ProjectUpdate { description: Some(None), status: Some("archived".into()), ..Default::default() };
    assert_eq!(
        project_update_statement("p1", update, 42),
        Some(Statement {
            sql: "UPDATE projects SET description = ?, status = ?, updated_at = ? WHERE id = ?".into(),
            binds: vec![SqlValue::Null, text("archived"), SqlValue::Integer(42), text("p1")],
        })
    );
    let update = ProjectUpdate { name: Some("N".into()), description: Some(Some("d".into())), status: None };
    assert_eq!(
        project_update_statement("p2", update, 5).unwrap().sql,
        "UPDATE projects SET name = ?, description = ?, updated_at = ? WHERE id = ?"
    );
}

#[test]
fn profile_update_binds_flag_last() {
    let update = AgentProfileUpdate { label: Some("L".into()), definition: None, is_active: Some(false) };
    assert_eq!(
        profile_update_statement("ap1", update, 9),
        Some(Statement {
            sql: "UPDATE agent_profiles SET label = ?, is_active = ?, updated_at = ? WHERE id = ?".into(),
            binds: vec![text("L"), SqlValue::Boolean(false), SqlValue::Integer(9), text("ap1")],
        })
    );
}

const SELECT: &str = "SELECT user_id, COALESCE(SUM(tokens_in), 0), COALESCE(SUM(tokens_out), 0), COALESCE(SUM(cache_read), 0), COALESCE(SUM(cache_write), 0), COALESCE(SUM(cost_usd), 0.0), COUNT(*) FROM usage_events WHERE created_at >= ?";

#[test]
fn usage_summary_adds_one_condition_per_filter() {
    let none = UsageQueryFilters::default();
    assert_eq!(
        usage_summary_statement(100, &none),
        Statement {
            sql: format!("{SELECT} GROUP BY user_id ORDER BY SUM(cost_usd) DESC"),
            binds: vec![SqlValue::Integer(100)],
        }
    );
    let both = UsageQueryFilters { profile_id: Some("ingenieria".into()), engine: Some("copilot".into()) };
    assert_eq!(
        usage_summary_statement(5, &both),
        Statement {
            sql: format!("{SELECT} AND profile_id = ? AND engine = ? GROUP BY user_id ORDER BY SUM(cost_usd) DESC"),
            binds: vec![SqlValue::Integer(5), text("ingenieria"), text("copilot")],
        }
    );
    let engine = UsageQueryFilters { profile_id: None, engine: Some("openclaw".into()) };
    assert_eq!(
        usage_summary_statement(0, &engine).sql,
        format!("{SELECT} AND engine = ? GROUP BY user_id ORDER BY SUM(cost_usd) DESC")
    );
}

#[test]
fn profiles_by_ids_has_one_placeholder_per_id() {
    assert_eq!(profiles_by_ids_statement(&vec![], true), None);
    let ids = vec!["a".to_string(), "b".to_string()];
    assert_eq!(
        profiles_by_ids_statement(&ids, false),
        Some(Statement {
            sql: "SELECT * FROM agent_profiles WHERE id IN (?, ?) AND (? = 1 OR is_active = 1) ORDER BY name ASC"
                .into(),
            binds: vec![text("a"), text("b"), SqlValue::Integer(0)],
        })
    );
    assert_eq!(profiles_by_ids_statement(&vec!["x".to_string()], true).unwrap().binds, vec![text("x"), SqlValue::Integer(1)]);
}

#[test]
fn templates_filter_by_project_type() {
    assert_eq!(
        templates_statement(None),
        Statement { sql: "SELECT * FROM pipeline_templates WHERE is_active = 1 ORDER BY name ASC".into(), binds: vec![] }
    );
    assert_eq!(
        templates_statement(Some("generico")),
        Statement {
            sql: "SELECT * FROM pipeline_templates WHERE is_active = 1 AND project_type = ? ORDER BY name ASC".into(),
            binds: vec![text("generico")],
        }
    );
}

fn marks(s: &Statement) -> usize {
    s.sql.chars().filter(|c| *c == '?').count()
}

#[test]
fn every_placeholder_has_one_bind() {
    let full = TaskUpdate {
        title: Some("t".into()),
        instructions: Some(Some("i".into())),
        assignee_kind: Some("human".into()),
        assignee_id: Some(None),
        requires_human_review: Some(true),
        order_index: Some(1),
    };
    let statements = vec![
        task_update_statement("t", full, 1).unwrap(),
        project_update_statement("p", ProjectUpdate { name: Some("n".into()), ..Default::default() }, 1).unwrap(),
        profile_update_statement("a", AgentProfileUpdate { definition: Some("{}".into()), ..Default::default() }, 1)
            .unwrap(),
        usage_summary_statement(1, &UsageQueryFilters { profile_id: Some("p".into()), engine: None }),
        profiles_by_ids_statement(&vec!["a".into(), "b".into(), "c".into()], true).unwrap(),
        templates_statement(Some("x")),
        templates_statement(None),
    ];
    for s in &statements {
        assert_eq!(marks(s), s.binds.len(), "{}", s.sql);
    }
}
