//! SQL statements whose text depends on the request: partial updates, which
//! set only the columns given, and queries with optional filters or a list
//! of ids. Each statement is computed here as its text and its binds, in
//! placeholder order; the store only executes it. Every statement built
//! here has exactly one bind per `?` placeholder of its text.

use vstd::prelude::*;

use crate::models::{AgentProfileUpdate, ProjectUpdate, TaskUpdate};
use crate::text::views;
use crate::usage::UsageQueryFilters;

verus! {

/// A value bound to a `?` placeholder.
#[derive(Debug, Clone, PartialEq)]
pub enum SqlValue {
    Null,
    Text(String),
    Integer(i64),
    Boolean(bool),
}

/// What a bound value is, as the contracts speak of it.
pub enum BindValue {
    Null,
    Text(Seq<char>),
    Integer(i64),
    Boolean(bool),
}

impl View for SqlValue {
    type V = BindValue;

    open spec fn view(&self) -> BindValue {
        match self {
            SqlValue::Null => BindValue::Null,
            SqlValue::Text(s) => BindValue::Text(s@),
            SqlValue::Integer(n) => BindValue::Integer(*n),
            SqlValue::Boolean(b) => BindValue::Boolean(*b),
        }
    }
}

/// A statement: its text and the values of its placeholders, in order.
#[derive(Debug, Clone, PartialEq)]
pub struct Statement {
    pub sql: String,
    pub binds: Vec<SqlValue>,
}

/// The values of a sequence of binds.
pub open spec fn bind_views(b: Seq<SqlValue>) -> Seq<BindValue> {
    b.map_values(|v: SqlValue| v@)
}

/// `parts` joined with `sep` between consecutive parts.
pub open spec fn joined(parts: Seq<Seq<char>>, sep: Seq<char>) -> Seq<char>
    decreases parts.len(),
{
    if parts.len() == 0 {
        Seq::empty()
    } else if parts.len() == 1 {
        parts[0]
    } else {
        joined(parts.drop_last(), sep) + sep + parts.last()
    }
}

/// The number of `?` placeholders in a statement's text.
pub open spec fn count_marks(s: Seq<char>) -> nat
    decreases s.len(),
{
    if s.len() == 0 {
        0
    } else {
        count_marks(s.drop_last()) + if s.last() == '?' {
            1nat
        } else {
            0nat
        }
    }
}

/// The placeholders of all `parts`.
pub open spec fn count_all(parts: Seq<Seq<char>>) -> nat
    decreases parts.len(),
{
    if parts.len() == 0 {
        0
    } else {
        count_all(parts.drop_last()) + count_marks(parts.last())
    }
}

proof fn lemma_count_concat(a: Seq<char>, b: Seq<char>)
    ensures
        count_marks(a + b) == count_marks(a) + count_marks(b),
    decreases b.len(),
{
    if b.len() > 0 {
        assert((a + b).drop_last() =~= a + b.drop_last());
        lemma_count_concat(a, b.drop_last());
    } else {
        assert(a + b =~= a);
    }
}

proof fn lemma_count_all_concat(a: Seq<Seq<char>>, b: Seq<Seq<char>>)
    ensures
        count_all(a + b) == count_all(a) + count_all(b),
    decreases b.len(),
{
    if b.len() > 0 {
        assert((a + b).drop_last() =~= a + b.drop_last());
        lemma_count_all_concat(a, b.drop_last());
    } else {
        assert(a + b =~= a);
    }
}

/// Joining with a separator without placeholders keeps the placeholders of
/// the parts, and only those.
proof fn lemma_count_joined(parts: Seq<Seq<char>>, sep: Seq<char>)
    requires
        count_marks(sep) == 0,
    ensures
        count_marks(joined(parts, sep)) == count_all(parts),
    decreases parts.len(),
{
    if parts.len() == 1 {
        assert(parts.drop_last() =~= Seq::<Seq<char>>::empty());
        assert(count_all(parts.drop_last()) == 0);
        assert(parts.last() == parts[0]);
    } else if parts.len() > 1 {
        lemma_count_joined(parts.drop_last(), sep);
        lemma_count_concat(joined(parts.drop_last(), sep), sep);
        lemma_count_concat(joined(parts.drop_last(), sep) + sep, parts.last());
    }
}

/// The placeholders of the fixed texts the statements are made of.
proof fn lemma_fixed_counts()
    ensures
        count_marks(", "@) == 0,
        count_marks("title = ?"@) == 1,
        count_marks("instructions = ?"@) == 1,
        count_marks("assignee_kind = ?"@) == 1,
        count_marks("assignee_id = ?"@) == 1,
        count_marks("requires_human_review = ?"@) == 1,
        count_marks("order_index = ?"@) == 1,
        count_marks("name = ?"@) == 1,
        count_marks("description = ?"@) == 1,
        count_marks("status = ?"@) == 1,
        count_marks("label = ?"@) == 1,
        count_marks("definition = ?"@) == 1,
        count_marks("is_active = ?"@) == 1,
        count_marks("updated_at = ?"@) == 1,
        count_marks("UPDATE tasks SET "@) == 0,
        count_marks(", updated_at = ? WHERE id = ?"@) == 2,
        count_marks("UPDATE projects SET "@) == 0,
        count_marks("UPDATE agent_profiles SET "@) == 0,
        count_marks(" WHERE id = ?"@) == 1,
        count_marks("?"@) == 1,
{
    reveal_strlit(", ");
    reveal_strlit("title = ?");
    reveal_strlit("instructions = ?");
    reveal_strlit("assignee_kind = ?");
    reveal_strlit("assignee_id = ?");
    reveal_strlit("requires_human_review = ?");
    reveal_strlit("order_index = ?");
    reveal_strlit("name = ?");
    reveal_strlit("description = ?");
    reveal_strlit("status = ?");
    reveal_strlit("label = ?");
    reveal_strlit("definition = ?");
    reveal_strlit("is_active = ?");
    reveal_strlit("updated_at = ?");
    reveal_strlit("UPDATE tasks SET ");
    reveal_strlit(", updated_at = ? WHERE id = ?");
    reveal_strlit("UPDATE projects SET ");
    reveal_strlit("UPDATE agent_profiles SET ");
    reveal_strlit(" WHERE id = ?");
    reveal_strlit("?");
    reveal_with_fuel(count_marks, 32);
}

/// Clauses of one placeholder each have as many placeholders as clauses.
proof fn lemma_one_mark_each(parts: Seq<Seq<char>>)
    requires
        forall|i: int| 0 <= i < parts.len() ==> count_marks(#[trigger] parts[i]) == 1,
    ensures
        count_all(parts) == parts.len(),
    decreases parts.len(),
{
    if parts.len() > 0 {
        lemma_one_mark_each(parts.drop_last());
    }
}

proof fn lemma_count_set_if(present: bool, clause: Seq<char>)
    requires
        count_marks(clause) == 1,
    ensures
        count_all(set_if(present, clause)) == set_if(present, clause).len(),
{
    if present {
        assert(set_if(present, clause).drop_last() =~= Seq::<Seq<char>>::empty());
        assert(count_all(set_if(present, clause).drop_last()) == 0);
    }
}

/// The placeholders of `prefix`, the clauses joined with `", "`, then
/// `suffix`.
proof fn lemma_count_framed(prefix: Seq<char>, clauses: Seq<Seq<char>>, suffix: Seq<char>)
    ensures
        count_marks(prefix + joined(clauses, ", "@) + suffix) == count_marks(prefix) + count_all(clauses)
            + count_marks(suffix),
{
    lemma_fixed_counts();
    lemma_count_joined(clauses, ", "@);
    lemma_count_concat(prefix, joined(clauses, ", "@));
    lemma_count_concat(prefix + joined(clauses, ", "@), suffix);
}

/// Each column of a task update contributes one placeholder and one bind.
proof fn lemma_task_marks(u: TaskUpdate)
    ensures
        count_all(task_set_clauses(u)) == task_set_clauses(u).len(),
        task_set_binds(u).len() == task_set_clauses(u).len(),
{
    lemma_fixed_counts();
    let a = set_if(u.title is Some, "title = ?"@);
    let b = set_if(u.instructions is Some, "instructions = ?"@);
    let c = set_if(u.assignee_kind is Some, "assignee_kind = ?"@);
    let d = set_if(u.assignee_id is Some, "assignee_id = ?"@);
    let e = set_if(u.requires_human_review is Some, "requires_human_review = ?"@);
    let f = set_if(u.order_index is Some, "order_index = ?"@);
    lemma_count_set_if(u.title is Some, "title = ?"@);
    lemma_count_set_if(u.instructions is Some, "instructions = ?"@);
    lemma_count_set_if(u.assignee_kind is Some, "assignee_kind = ?"@);
    lemma_count_set_if(u.assignee_id is Some, "assignee_id = ?"@);
    lemma_count_set_if(u.requires_human_review is Some, "requires_human_review = ?"@);
    lemma_count_set_if(u.order_index is Some, "order_index = ?"@);
    lemma_count_all_concat(a, b);
    lemma_count_all_concat(a + b, c);
    lemma_count_all_concat(a + b + c, d);
    lemma_count_all_concat(a + b + c + d, e);
    lemma_count_all_concat(a + b + c + d + e, f);
}

/// Each column of a project update contributes one placeholder and one
/// bind.
proof fn lemma_project_marks(u: ProjectUpdate)
    ensures
        count_all(project_set_clauses(u).push("updated_at = ?"@)) == project_set_clauses(u).len() + 1,
        project_set_binds(u).len() == project_set_clauses(u).len(),
{
    lemma_fixed_counts();
    let a = set_if(u.name is Some, "name = ?"@);
    let b = set_if(u.description is Some, "description = ?"@);
    let c = set_if(u.status is Some, "status = ?"@);
    lemma_count_set_if(u.name is Some, "name = ?"@);
    lemma_count_set_if(u.description is Some, "description = ?"@);
    lemma_count_set_if(u.status is Some, "status = ?"@);
    lemma_count_all_concat(a, b);
    lemma_count_all_concat(a + b, c);
    assert(project_set_clauses(u).push("updated_at = ?"@).drop_last() =~= project_set_clauses(u));
}

/// Each column of an agent profile update contributes one placeholder and
/// one bind.
proof fn lemma_profile_marks(u: AgentProfileUpdate)
    ensures
        count_all(profile_set_clauses(u).push("updated_at = ?"@)) == profile_set_clauses(u).len() + 1,
        profile_set_binds(u).len() == profile_set_clauses(u).len(),
{
    lemma_fixed_counts();
    let a = set_if(u.label is Some, "label = ?"@);
    let b = set_if(u.definition is Some, "definition = ?"@);
    let c = set_if(u.is_active is Some, "is_active = ?"@);
    lemma_count_set_if(u.label is Some, "label = ?"@);
    lemma_count_set_if(u.definition is Some, "definition = ?"@);
    lemma_count_set_if(u.is_active is Some, "is_active = ?"@);
    lemma_count_all_concat(a, b);
    lemma_count_all_concat(a + b, c);
    assert(profile_set_clauses(u).push("updated_at = ?"@).drop_last() =~= profile_set_clauses(u));
}

/// A text without `?` has no placeholder.
proof fn lemma_no_marks(s: Seq<char>)
    requires
        !s.contains('?'),
    ensures
        count_marks(s) == 0,
    decreases s.len(),
{
    if s.len() > 0 {
        assert(s.last() == s[s.len() - 1]);
        assert(!s.drop_last().contains('?')) by {
            if s.drop_last().contains('?') {
                let i = choose|i: int| 0 <= i < s.drop_last().len() && s.drop_last()[i] == '?';
                assert(s[i] == '?');
            }
        }
        lemma_no_marks(s.drop_last());
    }
}

/// A text whose only `?` is its last character has one placeholder.
proof fn lemma_one_final_mark(s: Seq<char>)
    requires
        s.len() > 0,
        s.last() == '?',
        !s.drop_last().contains('?'),
    ensures
        count_marks(s) == 1,
{
    lemma_no_marks(s.drop_last());
}

/// The placeholders of the fixed texts of the queries.
proof fn lemma_query_counts()
    ensures
        count_marks(USAGE_SUMMARY_SELECT@) == 1,
        count_marks(" AND profile_id = ?"@) == 1,
        count_marks(" AND engine = ?"@) == 1,
        count_marks(" GROUP BY user_id ORDER BY SUM(cost_usd) DESC"@) == 0,
        count_marks("SELECT * FROM agent_profiles WHERE id IN ("@) == 0,
        count_marks("SELECT * FROM pipeline_templates WHERE is_active = 1 ORDER BY name ASC"@) == 0,
{
    reveal_strlit(
        "SELECT user_id, COALESCE(SUM(tokens_in), 0), COALESCE(SUM(tokens_out), 0), COALESCE(SUM(cache_read), 0), COALESCE(SUM(cache_write), 0), COALESCE(SUM(cost_usd), 0.0), COUNT(*) FROM usage_events WHERE created_at >= ?",
    );
    reveal_strlit(" AND profile_id = ?");
    reveal_strlit(" AND engine = ?");
    reveal_strlit(" GROUP BY user_id ORDER BY SUM(cost_usd) DESC");
    reveal_strlit("SELECT * FROM agent_profiles WHERE id IN (");
    reveal_strlit("SELECT * FROM pipeline_templates WHERE is_active = 1 ORDER BY name ASC");
    lemma_one_final_mark(USAGE_SUMMARY_SELECT@);
    lemma_one_final_mark(" AND profile_id = ?"@);
    lemma_one_final_mark(" AND engine = ?"@);
    lemma_no_marks(" GROUP BY user_id ORDER BY SUM(cost_usd) DESC"@);
    lemma_no_marks("SELECT * FROM agent_profiles WHERE id IN ("@);
    lemma_no_marks("SELECT * FROM pipeline_templates WHERE is_active = 1 ORDER BY name ASC"@);
}

/// A text made of a part without `?`, one `?`, and a part without `?` has
/// one placeholder.
proof fn lemma_one_inner_mark(a: Seq<char>, b: Seq<char>)
    requires
        !a.contains('?'),
        !b.contains('?'),
    ensures
        count_marks(a + seq!['?'] + b) == 1,
{
    lemma_no_marks(a);
    lemma_no_marks(b);
    lemma_count_concat(a, seq!['?']);
    lemma_count_concat(a + seq!['?'], b);
    assert(seq!['?'].drop_last() =~= Seq::<char>::empty());
    assert(count_marks(seq!['?'].drop_last()) == 0);
}

/// The placeholders of the fixed texts with a mark inside.
proof fn lemma_inner_mark_counts()
    ensures
        count_marks(") AND (? = 1 OR is_active = 1) ORDER BY name ASC"@) == 1,
        count_marks("SELECT * FROM pipeline_templates WHERE is_active = 1 AND project_type = ? ORDER BY name ASC"@)
            == 1,
{
    reveal_strlit(") AND (");
    reveal_strlit(" = 1 OR is_active = 1) ORDER BY name ASC");
    reveal_strlit(") AND (? = 1 OR is_active = 1) ORDER BY name ASC");
    reveal_strlit("SELECT * FROM pipeline_templates WHERE is_active = 1 AND project_type = ");
    reveal_strlit(" ORDER BY name ASC");
    reveal_strlit("SELECT * FROM pipeline_templates WHERE is_active = 1 AND project_type = ? ORDER BY name ASC");
    assert(") AND (? = 1 OR is_active = 1) ORDER BY name ASC"@ =~= ") AND ("@ + seq!['?'] + " = 1 OR is_active = 1) ORDER BY name ASC"@);
    lemma_one_inner_mark(") AND ("@, " = 1 OR is_active = 1) ORDER BY name ASC"@);
    assert("SELECT * FROM pipeline_templates WHERE is_active = 1 AND project_type = ? ORDER BY name ASC"@
        =~= "SELECT * FROM pipeline_templates WHERE is_active = 1 AND project_type = "@ + seq!['?']
        + " ORDER BY name ASC"@);
    lemma_one_inner_mark(
        "SELECT * FROM pipeline_templates WHERE is_active = 1 AND project_type = "@,
        " ORDER BY name ASC"@,
    );
}

/// `[clause]` when the column is set, nothing otherwise.
pub open spec fn set_if(present: bool, clause: Seq<char>) -> Seq<Seq<char>> {
    if present {
        seq![clause]
    } else {
        Seq::empty()
    }
}

/// The bind of a nullable text column.
pub open spec fn nullable(o: Option<String>) -> BindValue {
    match o {
        Some(s) => BindValue::Text(s@),
        None => BindValue::Null,
    }
}

/// The bind of a given text column, nothing when it is not set.
pub open spec fn text_if(o: Option<String>) -> Seq<BindValue> {
    match o {
        Some(s) => seq![BindValue::Text(s@)],
        None => Seq::empty(),
    }
}

/// The bind of a given nullable text column, nothing when it is not set.
pub open spec fn nullable_if(o: Option<Option<String>>) -> Seq<BindValue> {
    match o {
        Some(v) => seq![nullable(v)],
        None => Seq::empty(),
    }
}

/// `parts` joined with `sep`.
pub fn join_with(parts: &Vec<String>, sep: &str) -> (r: String)
    ensures
        r@ == joined(views(parts@), sep@),
{
    let mut r = String::new();
    let mut i: usize = 0;
    while i < parts.len()
        invariant
            i <= parts@.len(),
            r@ == joined(views(parts@.take(i as int)), sep@),
        decreases parts.len() - i,
    {
        let ghost before = r@;
        if i > 0 {
            r.append(sep);
        }
        r.append(parts[i].as_str());
        proof {
            let next = views(parts@.take(i + 1));
            assert(next.drop_last() =~= views(parts@.take(i as int)));
            assert(next.last() == parts@[i as int]@);
            if i == 0 {
                assert(before == Seq::<char>::empty());
                assert(r@ =~= next[0]);
            }
        }
        i += 1;
    }
    proof {
        assert(parts@.take(parts@.len() as int) =~= parts@);
    }
    r
}

/// The bind of a given boolean column, nothing when it is not set.
pub open spec fn bool_if(o: Option<bool>) -> Seq<BindValue> {
    match o {
        Some(b) => seq![BindValue::Boolean(b)],
        None => Seq::empty(),
    }
}

/// The bind of a given integer column, nothing when it is not set.
pub open spec fn int_if(o: Option<i64>) -> Seq<BindValue> {
    match o {
        Some(n) => seq![BindValue::Integer(n)],
        None => Seq::empty(),
    }
}

/// Appends one `SET` clause and its bind.
fn push_set(clauses: &mut Vec<String>, binds: &mut Vec<SqlValue>, clause: &str, value: SqlValue)
    ensures
        views(final(clauses)@) == views(old(clauses)@).push(clause@),
        bind_views(final(binds)@) == bind_views(old(binds)@).push(value@),
{
    clauses.push(String::from_str(clause));
    binds.push(value);
    proof {
        assert(views(clauses@) =~= views(old(clauses)@).push(clause@));
        assert(bind_views(binds@) =~= bind_views(old(binds)@).push(value@));
    }
}

/// Sets a text column when it is given.
fn set_text(clauses: &mut Vec<String>, binds: &mut Vec<SqlValue>, clause: &str, o: Option<String>)
    ensures
        views(final(clauses)@) == views(old(clauses)@) + set_if(o is Some, clause@),
        bind_views(final(binds)@) == bind_views(old(binds)@) + text_if(o),
{
    match o {
        Some(t) => push_set(clauses, binds, clause, SqlValue::Text(t)),
        None => {},
    }
    assert(views(clauses@) =~= views(old(clauses)@) + set_if(o is Some, clause@));
    assert(bind_views(binds@) =~= bind_views(old(binds)@) + text_if(o));
}

/// Sets a nullable text column when it is given (`Some(None)` writes NULL).
fn set_nullable(clauses: &mut Vec<String>, binds: &mut Vec<SqlValue>, clause: &str, o: Option<Option<String>>)
    ensures
        views(final(clauses)@) == views(old(clauses)@) + set_if(o is Some, clause@),
        bind_views(final(binds)@) == bind_views(old(binds)@) + nullable_if(o),
{
    match o {
        Some(Some(t)) => push_set(clauses, binds, clause, SqlValue::Text(t)),
        Some(None) => push_set(clauses, binds, clause, SqlValue::Null),
        None => {},
    }
    assert(views(clauses@) =~= views(old(clauses)@) + set_if(o is Some, clause@));
    assert(bind_views(binds@) =~= bind_views(old(binds)@) + nullable_if(o));
}

/// Sets a boolean column when it is given.
fn set_bool(clauses: &mut Vec<String>, binds: &mut Vec<SqlValue>, clause: &str, o: Option<bool>)
    ensures
        views(final(clauses)@) == views(old(clauses)@) + set_if(o is Some, clause@),
        bind_views(final(binds)@) == bind_views(old(binds)@) + bool_if(o),
{
    match o {
        Some(b) => push_set(clauses, binds, clause, SqlValue::Boolean(b)),
        None => {},
    }
    assert(views(clauses@) =~= views(old(clauses)@) + set_if(o is Some, clause@));
    assert(bind_views(binds@) =~= bind_views(old(binds)@) + bool_if(o));
}

/// Sets an integer column when it is given.
fn set_int(clauses: &mut Vec<String>, binds: &mut Vec<SqlValue>, clause: &str, o: Option<i64>)
    ensures
        views(final(clauses)@) == views(old(clauses)@) + set_if(o is Some, clause@),
        bind_views(final(binds)@) == bind_views(old(binds)@) + int_if(o),
{
    match o {
        Some(n) => push_set(clauses, binds, clause, SqlValue::Integer(n)),
        None => {},
    }
    assert(views(clauses@) =~= views(old(clauses)@) + set_if(o is Some, clause@));
    assert(bind_views(binds@) =~= bind_views(old(binds)@) + int_if(o));
}

/// Appends the `updated_at` and `id` binds that close an update.
fn push_stamp_and_id(binds: &mut Vec<SqlValue>, now_ms: i64, id: &str)
    ensures
        bind_views(final(binds)@) == bind_views(old(binds)@) + seq![BindValue::Integer(now_ms), BindValue::Text(id@)],
{
    binds.push(SqlValue::Integer(now_ms));
    binds.push(SqlValue::Text(String::from_str(id)));
    assert(bind_views(binds@) =~= bind_views(old(binds)@) + seq![BindValue::Integer(now_ms), BindValue::Text(id@)]);
}

/// The `SET` clauses of a task update, in column order.
pub open spec fn task_set_clauses(u: TaskUpdate) -> Seq<Seq<char>> {
    set_if(u.title is Some, "title = ?"@) + set_if(u.instructions is Some, "instructions = ?"@) + set_if(
        u.assignee_kind is Some,
        "assignee_kind = ?"@,
    ) + set_if(u.assignee_id is Some, "assignee_id = ?"@) + set_if(
        u.requires_human_review is Some,
        "requires_human_review = ?"@,
    ) + set_if(u.order_index is Some, "order_index = ?"@)
}

/// The binds of those clauses, in the same order.
pub open spec fn task_set_binds(u: TaskUpdate) -> Seq<BindValue> {
    text_if(u.title) + nullable_if(u.instructions) + text_if(u.assignee_kind) + nullable_if(u.assignee_id)
        + bool_if(u.requires_human_review) + int_if(u.order_index)
}

/// The statement of a partial task update made at `now_ms`: the given
/// columns and `updated_at`, for the task `id`. `None` when no column is
/// given (nothing to write).
pub fn task_update_statement(id: &str, update: TaskUpdate, now_ms: i64) -> (r: Option<Statement>)
    ensures
        r is None <==> task_set_clauses(update).len() == 0,
        r matches Some(s) ==> s.sql@ == "UPDATE tasks SET "@ + joined(task_set_clauses(update), ", "@)
            + ", updated_at = ? WHERE id = ?"@,
        r matches Some(s) ==> bind_views(s.binds@) == task_set_binds(update) + seq![
            BindValue::Integer(now_ms),
            BindValue::Text(id@),
        ],
        r matches Some(s) ==> count_marks(s.sql@) == s.binds@.len(),
{
    let ghost u = update;
    let mut clauses: Vec<String> = Vec::new();
    let mut binds: Vec<SqlValue> = Vec::new();
    let TaskUpdate { title, instructions, assignee_kind, assignee_id, requires_human_review, order_index } =
        update;
    set_text(&mut clauses, &mut binds, "title = ?", title);
    set_nullable(&mut clauses, &mut binds, "instructions = ?", instructions);
    set_text(&mut clauses, &mut binds, "assignee_kind = ?", assignee_kind);
    set_nullable(&mut clauses, &mut binds, "assignee_id = ?", assignee_id);
    set_bool(&mut clauses, &mut binds, "requires_human_review = ?", requires_human_review);
    set_int(&mut clauses, &mut binds, "order_index = ?", order_index);
    assert(views(clauses@) =~= task_set_clauses(u));
    assert(bind_views(binds@) =~= task_set_binds(u));
    if clauses.len() == 0 {
        return None;
    }
    let mut sql = String::from_str("UPDATE tasks SET ");
    let set = join_with(&clauses, ", ");
    sql.append(set.as_str());
    sql.append(", updated_at = ? WHERE id = ?");
    push_stamp_and_id(&mut binds, now_ms, id);
    proof {
        lemma_fixed_counts();
        lemma_task_marks(u);
        lemma_count_framed("UPDATE tasks SET "@, task_set_clauses(u), ", updated_at = ? WHERE id = ?"@);
        assert(bind_views(binds@).len() == binds@.len());
    }
    Some(Statement { sql, binds })
}

/// The `SET` clauses of a project update, in column order (without
/// `updated_at`).
pub open spec fn project_set_clauses(u: ProjectUpdate) -> Seq<Seq<char>> {
    set_if(u.name is Some, "name = ?"@) + set_if(u.description is Some, "description = ?"@) + set_if(
        u.status is Some,
        "status = ?"@,
    )
}

/// The binds of those clauses, in the same order.
pub open spec fn project_set_binds(u: ProjectUpdate) -> Seq<BindValue> {
    text_if(u.name) + nullable_if(u.description) + text_if(u.status)
}

/// The statement of a partial project update made at `now_ms`: the given
/// columns, then `updated_at`, for the project `id` (`description:
/// Some(None)` writes NULL). `None` when no column is given.
pub fn project_update_statement(id: &str, update: ProjectUpdate, now_ms: i64) -> (r: Option<Statement>)
    ensures
        r is None <==> project_set_clauses(update).len() == 0,
        r matches Some(s) ==> s.sql@ == "UPDATE projects SET "@ + joined(
            project_set_clauses(update).push("updated_at = ?"@),
            ", "@,
        ) + " WHERE id = ?"@,
        r matches Some(s) ==> bind_views(s.binds@) == project_set_binds(update) + seq![
            BindValue::Integer(now_ms),
            BindValue::Text(id@),
        ],
        r matches Some(s) ==> count_marks(s.sql@) == s.binds@.len(),
{
    let ghost u = update;
    let mut clauses: Vec<String> = Vec::new();
    let mut binds: Vec<SqlValue> = Vec::new();
    let ProjectUpdate { name, description, status } = update;
    set_text(&mut clauses, &mut binds, "name = ?", name);
    set_nullable(&mut clauses, &mut binds, "description = ?", description);
    set_text(&mut clauses, &mut binds, "status = ?", status);
    assert(views(clauses@) =~= project_set_clauses(u));
    assert(bind_views(binds@) =~= project_set_binds(u));
    if clauses.len() == 0 {
        return None;
    }
    clauses.push(String::from_str("updated_at = ?"));
    assert(views(clauses@) =~= project_set_clauses(u).push("updated_at = ?"@));
    let mut sql = String::from_str("UPDATE projects SET ");
    let set = join_with(&clauses, ", ");
    sql.append(set.as_str());
    sql.append(" WHERE id = ?");
    push_stamp_and_id(&mut binds, now_ms, id);
    proof {
        lemma_fixed_counts();
        lemma_project_marks(u);
        lemma_count_framed("UPDATE projects SET "@, project_set_clauses(u).push("updated_at = ?"@), " WHERE id = ?"@);
        assert(bind_views(binds@).len() == binds@.len());
    }
    Some(Statement { sql, binds })
}

/// The `SET` clauses of an agent profile update, in column order (without
/// `updated_at`).
pub open spec fn profile_set_clauses(u: AgentProfileUpdate) -> Seq<Seq<char>> {
    set_if(u.label is Some, "label = ?"@) + set_if(u.definition is Some, "definition = ?"@) + set_if(
        u.is_active is Some,
        "is_active = ?"@,
    )
}

/// The binds of those clauses, in the same order.
pub open spec fn profile_set_binds(u: AgentProfileUpdate) -> Seq<BindValue> {
    text_if(u.label) + text_if(u.definition) + bool_if(u.is_active)
}

/// The statement of a partial agent profile update made at `now_ms`: the
/// given columns, then `updated_at`, for the profile `id`. `None` when no
/// column is given (the store then only checks that the profile exists).
pub fn profile_update_statement(id: &str, update: AgentProfileUpdate, now_ms: i64) -> (r: Option<Statement>)
    ensures
        r is None <==> profile_set_clauses(update).len() == 0,
        r matches Some(s) ==> s.sql@ == "UPDATE agent_profiles SET "@ + joined(
            profile_set_clauses(update).push("updated_at = ?"@),
            ", "@,
        ) + " WHERE id = ?"@,
        r matches Some(s) ==> bind_views(s.binds@) == profile_set_binds(update) + seq![
            BindValue::Integer(now_ms),
            BindValue::Text(id@),
        ],
        r matches Some(s) ==> count_marks(s.sql@) == s.binds@.len(),
{
    let ghost u = update;
    let mut clauses: Vec<String> = Vec::new();
    let mut binds: Vec<SqlValue> = Vec::new();
    let AgentProfileUpdate { label, definition, is_active } = update;
    set_text(&mut clauses, &mut binds, "label = ?", label);
    set_text(&mut clauses, &mut binds, "definition = ?", definition);
    set_bool(&mut clauses, &mut binds, "is_active = ?", is_active);
    assert(views(clauses@) =~= profile_set_clauses(u));
    assert(bind_views(binds@) =~= profile_set_binds(u));
    if clauses.len() == 0 {
        return None;
    }
    clauses.push(String::from_str("updated_at = ?"));
    assert(views(clauses@) =~= profile_set_clauses(u).push("updated_at = ?"@));
    let mut sql = String::from_str("UPDATE agent_profiles SET ");
    let set = join_with(&clauses, ", ");
    sql.append(set.as_str());
    sql.append(" WHERE id = ?");
    push_stamp_and_id(&mut binds, now_ms, id);
    proof {
        lemma_fixed_counts();
        lemma_profile_marks(u);
        lemma_count_framed(
            "UPDATE agent_profiles SET "@,
            profile_set_clauses(u).push("updated_at = ?"@),
            " WHERE id = ?"@,
        );
        assert(bind_views(binds@).len() == binds@.len());
    }
    Some(Statement { sql, binds })
}

/// The columns and source of the per-user usage summary.
pub const USAGE_SUMMARY_SELECT: &'static str = "SELECT user_id, COALESCE(SUM(tokens_in), 0), COALESCE(SUM(tokens_out), 0), COALESCE(SUM(cache_read), 0), COALESCE(SUM(cache_write), 0), COALESCE(SUM(cost_usd), 0.0), COUNT(*) FROM usage_events WHERE created_at >= ?";

/// The text of the per-user usage summary since a moment: one condition
/// per given filter, profile first, then engine; users by cost, highest
/// first.
pub open spec fn usage_summary_sql(f: UsageQueryFilters) -> Seq<char> {
    USAGE_SUMMARY_SELECT@ + (if f.profile_id is Some {
        " AND profile_id = ?"@
    } else {
        Seq::empty()
    }) + (if f.engine is Some {
        " AND engine = ?"@
    } else {
        Seq::empty()
    }) + " GROUP BY user_id ORDER BY SUM(cost_usd) DESC"@
}

/// A copy of a text bind.
fn text_value(s: &String) -> (r: SqlValue)
    ensures
        r@ == BindValue::Text(s@),
{
    SqlValue::Text(s.clone())
}

/// The per-user usage summary of the events since `since_ms` that match
/// `filters`: its text and binds (`since_ms`, then each given filter).
pub fn usage_summary_statement(since_ms: i64, filters: &UsageQueryFilters) -> (r: Statement)
    ensures
        r.sql@ == usage_summary_sql(*filters),
        bind_views(r.binds@) == seq![BindValue::Integer(since_ms)] + text_if(filters.profile_id) + text_if(
            filters.engine,
        ),
        count_marks(r.sql@) == r.binds@.len(),
{
    let mut sql = String::from_str(USAGE_SUMMARY_SELECT);
    let mut binds: Vec<SqlValue> = Vec::new();
    binds.push(SqlValue::Integer(since_ms));
    let ghost b0 = bind_views(binds@);
    assert(b0 =~= seq![BindValue::Integer(since_ms)]);
    match &filters.profile_id {
        Some(p) => {
            sql.append(" AND profile_id = ?");
            binds.push(text_value(p));
        },
        None => {},
    }
    let ghost b1 = bind_views(binds@);
    assert(b1 =~= b0 + text_if(filters.profile_id));
    let ghost s1 = sql@;
    assert(s1 =~= USAGE_SUMMARY_SELECT@ + (if filters.profile_id is Some {
        " AND profile_id = ?"@
    } else {
        Seq::empty()
    }));
    match &filters.engine {
        Some(e) => {
            sql.append(" AND engine = ?");
            binds.push(text_value(e));
        },
        None => {},
    }
    assert(bind_views(binds@) =~= b1 + text_if(filters.engine));
    sql.append(" GROUP BY user_id ORDER BY SUM(cost_usd) DESC");
    assert(sql@ =~= usage_summary_sql(*filters));
    proof {
        lemma_query_counts();
        let p: Seq<char> = if filters.profile_id is Some {
            " AND profile_id = ?"@
        } else {
            Seq::empty()
        };
        let e: Seq<char> = if filters.engine is Some {
            " AND engine = ?"@
        } else {
            Seq::empty()
        };
        assert(count_marks(Seq::<char>::empty()) == 0);
        lemma_count_concat(USAGE_SUMMARY_SELECT@, p);
        lemma_count_concat(USAGE_SUMMARY_SELECT@ + p, e);
        lemma_count_concat(USAGE_SUMMARY_SELECT@ + p + e, " GROUP BY user_id ORDER BY SUM(cost_usd) DESC"@);
        assert(bind_views(binds@).len() == binds@.len());
    }
    Statement { sql, binds }
}

/// `n` placeholders.
pub open spec fn placeholders(n: nat) -> Seq<Seq<char>> {
    Seq::new(n, |i: int| "?"@)
}

/// The binds of a list of texts.
pub open spec fn text_binds(v: Seq<String>) -> Seq<BindValue> {
    v.map_values(|s: String| BindValue::Text(s@))
}

/// The agent profiles with the given ids, by name, the inactive ones only
/// when `include_inactive`: one placeholder per id, then the flag as 1 or 0.
/// `None` for no id (nothing to look up).
pub fn profiles_by_ids_statement(ids: &Vec<String>, include_inactive: bool) -> (r: Option<Statement>)
    ensures
        r is None <==> ids@.len() == 0,
        r matches Some(s) ==> s.sql@ == "SELECT * FROM agent_profiles WHERE id IN ("@ + joined(
            placeholders(ids@.len()),
            ", "@,
        ) + ") AND (? = 1 OR is_active = 1) ORDER BY name ASC"@,
        r matches Some(s) ==> bind_views(s.binds@) == text_binds(ids@) + seq![
            BindValue::Integer(if include_inactive { 1 } else { 0 }),
        ],
        r matches Some(s) ==> count_marks(s.sql@) == s.binds@.len(),
{
    if ids.len() == 0 {
        return None;
    }
    let mut marks: Vec<String> = Vec::new();
    let mut binds: Vec<SqlValue> = Vec::new();
    let mut i: usize = 0;
    while i < ids.len()
        invariant
            i <= ids@.len(),
            views(marks@) == placeholders(i as nat),
            bind_views(binds@) == text_binds(ids@.take(i as int)),
        decreases ids.len() - i,
    {
        let ghost m0 = marks@;
        let ghost b0 = binds@;
        let mark = String::from_str("?");
        let value = text_value(&ids[i]);
        marks.push(mark);
        binds.push(value);
        assert(marks@ == m0.push(mark));
        assert(views(marks@) =~= views(m0).push("?"@));
        assert(views(marks@) =~= placeholders((i + 1) as nat));
        assert(binds@ == b0.push(value));
        assert(bind_views(binds@) =~= bind_views(b0).push(BindValue::Text(ids@[i as int]@)));
        assert(ids@.take(i + 1) =~= ids@.take(i as int).push(ids@[i as int]));
        assert(bind_views(binds@) =~= text_binds(ids@.take(i + 1)));
        i += 1;
    }
    assert(ids@.take(ids@.len() as int) =~= ids@);
    let flag: i64 = if include_inactive {
        1
    } else {
        0
    };
    let ghost before = bind_views(binds@);
    binds.push(SqlValue::Integer(flag));
    assert(bind_views(binds@) =~= before + seq![BindValue::Integer(flag)]);
    let mut sql = String::from_str("SELECT * FROM agent_profiles WHERE id IN (");
    let list = join_with(&marks, ", ");
    sql.append(list.as_str());
    sql.append(") AND (? = 1 OR is_active = 1) ORDER BY name ASC");
    proof {
        lemma_fixed_counts();
        lemma_query_counts();
        lemma_inner_mark_counts();
        let marks_spec = placeholders(ids@.len());
        assert forall|k: int| 0 <= k < marks_spec.len() implies count_marks(#[trigger] marks_spec[k]) == 1 by {
            assert(marks_spec[k] == "?"@);
        }
        lemma_one_mark_each(marks_spec);
        lemma_count_framed(
            "SELECT * FROM agent_profiles WHERE id IN ("@,
            marks_spec,
            ") AND (? = 1 OR is_active = 1) ORDER BY name ASC"@,
        );
        assert(bind_views(binds@).len() == binds@.len());
    }
    Some(Statement { sql, binds })
}

/// The active pipeline templates by name, only those of `project_type`
/// when one is given.
pub fn templates_statement(project_type: Option<&str>) -> (r: Statement)
    ensures
        project_type is None ==> r.sql@ == "SELECT * FROM pipeline_templates WHERE is_active = 1 ORDER BY name ASC"@
            && r.binds@.len() == 0,
        project_type matches Some(pt) ==> r.sql@
            == "SELECT * FROM pipeline_templates WHERE is_active = 1 AND project_type = ? ORDER BY name ASC"@
            && bind_views(r.binds@) == seq![BindValue::Text(pt@)],
        count_marks(r.sql@) == r.binds@.len(),
{
    proof {
        lemma_query_counts();
        lemma_inner_mark_counts();
    }
    match project_type {
        Some(pt) => {
            let mut binds: Vec<SqlValue> = Vec::new();
            binds.push(SqlValue::Text(String::from_str(pt)));
            assert(bind_views(binds@) =~= seq![BindValue::Text(pt@)]);
            Statement {
                sql: String::from_str(
                    "SELECT * FROM pipeline_templates WHERE is_active = 1 AND project_type = ? ORDER BY name ASC",
                ),
                binds,
            }
        },
        None => Statement {
            sql: String::from_str("SELECT * FROM pipeline_templates WHERE is_active = 1 ORDER BY name ASC"),
            binds: Vec::new(),
        },
    }
}

} // verus!
