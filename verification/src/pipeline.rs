//! Instantiating a pipeline from a template: one task per template entry,
//! then the dependencies between them (template keys resolved to the ids of
//! the created tasks), then blocking the tasks born with unmet ones.
//!
//! Keys map to the task created last under that key; a dependency on an
//! unknown key is ignored (a malformed template is not fatal).

use vstd::prelude::*;

use crate::models::NewTask;
use crate::text::{str_eq, views};

verus! {

/// Errors of pipeline instantiation.
#[derive(Debug, Clone)]
pub enum PipelineError {
    /// The task store failed; its message.
    Db(String),
    /// No template with this id.
    TemplateNotFound(String),
    /// The template's definition is not a valid list of tasks; the reason.
    InvalidTemplate(String),
}

impl PipelineError {
    /// The human-readable message of this error.
    pub fn message(&self) -> (r: String)
        ensures
            match *self {
                PipelineError::Db(m) => r@ == m@,
                PipelineError::TemplateNotFound(id) => r@ == "template '"@ + id@ + "' not found"@,
                PipelineError::InvalidTemplate(m) => r@ == "invalid template definition: "@ + m@,
            },
    {
        match self {
            PipelineError::Db(m) => m.clone(),
            PipelineError::TemplateNotFound(id) => {
                let mut r = String::from_str("template '");
                r.append(id.as_str());
                r.append("' not found");
                r
            },
            PipelineError::InvalidTemplate(m) => {
                let mut r = String::from_str("invalid template definition: ");
                r.append(m.as_str());
                r
            },
        }
    }
}

/// One task of a template's definition, with its defaults applied
/// (assignee kind `human`, review required, no dependencies).
#[derive(Debug, Clone)]
pub struct TaskSpec {
    pub key: String,
    pub title: String,
    pub assignee_kind: String,
    /// For an agent task: the agent that gets it (its `assignee_id`).
    pub agent: Option<String>,
    pub requires_human_review: bool,
    pub produces_artifact: Option<String>,
    /// Keys (not ids) of the tasks this one depends on.
    pub depends_on: Vec<String>,
}

/// The parameters of the task created for the template entry at `index`:
/// its order is its position; an agent task is assigned to its agent.
pub fn task_for_spec(project_id: &str, created_by: &str, index: usize, spec: &TaskSpec) -> (r: NewTask)
    requires
        index <= i64::MAX,
    ensures
        r.project_id@ == project_id@,
        r.parent_task_id is None,
        r.title == spec.title,
        r.instructions is None,
        r.assignee_kind == spec.assignee_kind,
        spec.assignee_kind@ == "agent"@ ==> r.assignee_id == spec.agent,
        spec.assignee_kind@ != "agent"@ ==> r.assignee_id is None,
        r.requires_human_review == spec.requires_human_review,
        r.produces_artifact == spec.produces_artifact,
        r.order_index == index as int,
        r.created_by@ == created_by@,
        r.depends_on@.len() == 0,
{
    let assignee_id = if str_eq(spec.assignee_kind.as_str(), "agent") {
        spec.agent.clone()
    } else {
        None
    };
    NewTask {
        project_id: String::from_str(project_id),
        parent_task_id: None,
        title: spec.title.clone(),
        instructions: None,
        assignee_kind: spec.assignee_kind.clone(),
        assignee_id,
        requires_human_review: spec.requires_human_review,
        produces_artifact: spec.produces_artifact.clone(),
        order_index: index as i64,
        created_by: String::from_str(created_by),
        depends_on: Vec::new(),
    }
}

/// The keys of the template entries.
pub open spec fn keys_of(specs: Seq<TaskSpec>) -> Seq<Seq<char>> {
    specs.map_values(|s: TaskSpec| s.key@)
}

/// The id of the task created last under `key`, among the first `n`
/// entries (`keys[i]` created as `ids[i]`).
pub open spec fn id_for_key_in(keys: Seq<Seq<char>>, ids: Seq<Seq<char>>, key: Seq<char>, n: int) -> Option<Seq<char>>
    decreases n,
{
    if n <= 0 {
        None
    } else if keys[n - 1] == key {
        Some(ids[n - 1])
    } else {
        id_for_key_in(keys, ids, key, n - 1)
    }
}

/// The id of the task created last under `key`.
pub open spec fn id_for_key(keys: Seq<Seq<char>>, ids: Seq<Seq<char>>, key: Seq<char>) -> Option<Seq<char>> {
    id_for_key_in(keys, ids, key, keys.len() as int)
}

/// The dependency links `(task, dependency)` of one entry whose task is
/// `task_id`, for its first `n` dependency keys (unknown keys skipped).
pub open spec fn entry_links(
    keys: Seq<Seq<char>>,
    ids: Seq<Seq<char>>,
    task_id: Seq<char>,
    deps: Seq<Seq<char>>,
    n: int,
) -> Seq<(Seq<char>, Seq<char>)>
    decreases n,
{
    if n <= 0 {
        Seq::empty()
    } else {
        let before = entry_links(keys, ids, task_id, deps, n - 1);
        match id_for_key(keys, ids, deps[n - 1]) {
            Some(dep_id) => before.push((task_id, dep_id)),
            None => before,
        }
    }
}

/// The dependency links of the first `n` entries, in template order.
pub open spec fn links_of(specs: Seq<TaskSpec>, ids: Seq<Seq<char>>, n: int) -> Seq<(Seq<char>, Seq<char>)>
    decreases n,
{
    if n <= 0 {
        Seq::empty()
    } else {
        let s = specs[n - 1];
        let deps = views(s.depends_on@);
        links_of(specs, ids, n - 1) + match id_for_key(keys_of(specs), ids, s.key@) {
            Some(task_id) => entry_links(keys_of(specs), ids, task_id, deps, deps.len() as int),
            None => Seq::empty(),
        }
    }
}

/// The texts of a sequence of string pairs.
pub open spec fn pair_views(v: Seq<(String, String)>) -> Seq<(Seq<char>, Seq<char>)> {
    v.map_values(|p: (String, String)| (p.0@, p.1@))
}

/// The id of the task created last under `key`.
#[verifier::loop_isolation(false)]
fn id_for(specs: &Vec<TaskSpec>, ids: &Vec<String>, key: &str) -> (r: Option<String>)
    requires
        specs@.len() == ids@.len(),
    ensures
        match r {
            Some(id) => id_for_key(keys_of(specs@), views(ids@), key@) == Some(id@),
            None => id_for_key(keys_of(specs@), views(ids@), key@) is None,
        },
{
    let ghost keys = keys_of(specs@);
    let ghost idv = views(ids@);
    let mut n: usize = specs.len();
    while n > 0
        invariant
            n <= specs@.len(),
            specs@.len() == ids@.len(),
            id_for_key(keys, idv, key@) == id_for_key_in(keys, idv, key@, n as int),
        decreases n,
    {
        assert(keys[n - 1] == specs@[n - 1].key@);
        assert(idv[n - 1] == ids@[n - 1]@);
        if str_eq(specs[n - 1].key.as_str(), key) {
            return Some(ids[n - 1].clone());
        }
        n -= 1;
    }
    None
}

/// The dependency links of a template's tasks, given the ids of the tasks
/// created for its entries (in order): for each entry, in order, a link
/// from its task to the task of each dependency key that names an entry.
#[verifier::loop_isolation(false)]
pub fn dependency_links(specs: &Vec<TaskSpec>, ids: &Vec<String>) -> (r: Vec<(String, String)>)
    requires
        specs@.len() == ids@.len(),
    ensures
        pair_views(r@) == links_of(specs@, views(ids@), specs@.len() as int),
{
    let ghost keys = keys_of(specs@);
    let ghost idv = views(ids@);
    let mut r: Vec<(String, String)> = Vec::new();
    let mut i: usize = 0;
    while i < specs.len()
        invariant
            i <= specs@.len(),
            specs@.len() == ids@.len(),
            pair_views(r@) == links_of(specs@, idv, i as int),
        decreases specs.len() - i,
    {
        let spec = &specs[i];
        let ghost before = pair_views(r@);
        match id_for(specs, ids, spec.key.as_str()) {
            Some(task_id) => {
                let ghost deps = views(spec.depends_on@);
                let mut j: usize = 0;
                while j < spec.depends_on.len()
                    invariant
                        i < specs@.len(),
                        j <= spec.depends_on@.len(),
                        specs@.len() == ids@.len(),
                        deps == views(spec.depends_on@),
                        pair_views(r@) == before + entry_links(keys, idv, task_id@, deps, j as int),
                    decreases spec.depends_on.len() - j,
                {
                    assert(deps[j as int] == spec.depends_on@[j as int]@);
                    match id_for(specs, ids, spec.depends_on[j].as_str()) {
                        Some(dep_id) => {
                            let pair = (task_id.clone(), dep_id);
                            proof {
                                assert(pair_views(r@.push(pair)) =~= pair_views(r@).push((pair.0@, pair.1@)));
                                assert(before + entry_links(keys, idv, task_id@, deps, j + 1) =~= (before
                                    + entry_links(keys, idv, task_id@, deps, j as int)).push((task_id@, dep_id@)));
                            }
                            r.push(pair);
                        },
                        None => {},
                    }
                    j += 1;
                }
                proof {
                    assert(links_of(specs@, idv, i + 1) =~= links_of(specs@, idv, i as int) + entry_links(
                        keys,
                        idv,
                        task_id@,
                        deps,
                        deps.len() as int,
                    ));
                }
            },
            None => {
                assert(links_of(specs@, idv, i + 1) =~= links_of(specs@, idv, i as int));
            },
        }
        i += 1;
    }
    r
}

/// The tasks to block-check and return, in template order: for each entry,
/// the task created last under its key.
pub open spec fn blocking_order_spec(specs: Seq<TaskSpec>, ids: Seq<Seq<char>>) -> Seq<Seq<char>> {
    Seq::new(specs.len(), |i: int| id_for_key(keys_of(specs), ids, specs[i].key@).unwrap())
}

proof fn lemma_own_key_found(keys: Seq<Seq<char>>, ids: Seq<Seq<char>>, i: int, n: int)
    requires
        0 <= i < n <= keys.len(),
    ensures
        id_for_key_in(keys, ids, keys[i], n) is Some,
    decreases n,
{
    if keys[n - 1] != keys[i] {
        lemma_own_key_found(keys, ids, i, n - 1);
    }
}

/// For each template entry, the id of the task created last under its key
/// (the order in which the created tasks are block-checked and returned).
#[verifier::loop_isolation(false)]
pub fn blocking_order(specs: &Vec<TaskSpec>, ids: &Vec<String>) -> (r: Vec<String>)
    requires
        specs@.len() == ids@.len(),
    ensures
        views(r@) == blocking_order_spec(specs@, views(ids@)),
{
    let ghost keys = keys_of(specs@);
    let mut r: Vec<String> = Vec::new();
    let mut i: usize = 0;
    while i < specs.len()
        invariant
            i <= specs@.len(),
            specs@.len() == ids@.len(),
            views(r@) == blocking_order_spec(specs@, views(ids@)).take(i as int),
        decreases specs.len() - i,
    {
        proof {
            assert(keys[i as int] == specs@[i as int].key@);
            lemma_own_key_found(keys, views(ids@), i as int, keys.len() as int);
        }
        match id_for(specs, ids, specs[i].key.as_str()) {
            Some(id) => {
                proof {
                    assert(views(r@.push(id)) =~= blocking_order_spec(specs@, views(ids@)).take(i + 1));
                }
                r.push(id);
            },
            None => {
                proof {
                    assert(false);
                }
            },
        }
        i += 1;
    }
    assert(blocking_order_spec(specs@, views(ids@)).take(specs@.len() as int) =~= blocking_order_spec(
        specs@,
        views(ids@),
    ));
    r
}

/// Every dependency link joins two created tasks: both ends are ids of the
/// template's tasks.
pub proof fn links_join_created_tasks(specs: Seq<TaskSpec>, ids: Seq<Seq<char>>, k: int)
    requires
        specs.len() == ids.len(),
        0 <= k < links_of(specs, ids, specs.len() as int).len(),
    ensures
        ids.contains(links_of(specs, ids, specs.len() as int)[k].0),
        ids.contains(links_of(specs, ids, specs.len() as int)[k].1),
{
    lemma_links_in_ids(specs, ids, specs.len() as int, k);
}

proof fn lemma_found_in_ids(keys: Seq<Seq<char>>, ids: Seq<Seq<char>>, key: Seq<char>, n: int)
    requires
        0 <= n <= keys.len(),
        keys.len() == ids.len(),
        id_for_key_in(keys, ids, key, n) is Some,
    ensures
        ids.contains(id_for_key_in(keys, ids, key, n).unwrap()),
    decreases n,
{
    if keys[n - 1] == key {
        assert(ids[n - 1] == id_for_key_in(keys, ids, key, n).unwrap());
    } else {
        lemma_found_in_ids(keys, ids, key, n - 1);
    }
}

proof fn lemma_entry_links_in_ids(
    keys: Seq<Seq<char>>,
    ids: Seq<Seq<char>>,
    task_id: Seq<char>,
    deps: Seq<Seq<char>>,
    n: int,
    k: int,
)
    requires
        keys.len() == ids.len(),
        0 <= n <= deps.len(),
        0 <= k < entry_links(keys, ids, task_id, deps, n).len(),
    ensures
        entry_links(keys, ids, task_id, deps, n)[k].0 == task_id,
        ids.contains(entry_links(keys, ids, task_id, deps, n)[k].1),
    decreases n,
{
    let before = entry_links(keys, ids, task_id, deps, n - 1);
    match id_for_key(keys, ids, deps[n - 1]) {
        Some(dep_id) => {
            if k < before.len() {
                lemma_entry_links_in_ids(keys, ids, task_id, deps, n - 1, k);
            } else {
                lemma_found_in_ids(keys, ids, deps[n - 1], keys.len() as int);
            }
        },
        None => {
            lemma_entry_links_in_ids(keys, ids, task_id, deps, n - 1, k);
        },
    }
}

proof fn lemma_links_in_ids(specs: Seq<TaskSpec>, ids: Seq<Seq<char>>, n: int, k: int)
    requires
        specs.len() == ids.len(),
        0 <= n <= specs.len(),
        0 <= k < links_of(specs, ids, n).len(),
    ensures
        ids.contains(links_of(specs, ids, n)[k].0),
        ids.contains(links_of(specs, ids, n)[k].1),
    decreases n,
{
    let before = links_of(specs, ids, n - 1);
    let s = specs[n - 1];
    let deps = views(s.depends_on@);
    if k < before.len() {
        lemma_links_in_ids(specs, ids, n - 1, k);
    } else {
        match id_for_key(keys_of(specs), ids, s.key@) {
            Some(task_id) => {
                lemma_found_in_ids(keys_of(specs), ids, s.key@, specs.len() as int);
                lemma_entry_links_in_ids(keys_of(specs), ids, task_id, deps, deps.len() as int, k - before.len());
            },
            None => {},
        }
    }
}

} // verus!
