//! Who sees which agent profiles and generated assistants.
//!
//! A user sees a profile when `resource_acl` (resource type
//! `agent_profile`) has a user entry for the user's id or for one of the
//! user's roles; administrators see every active profile. Without any entry
//! the user sees nothing (fail-closed). Assistants generated from a profile
//! follow the same gate; other assistants are never filtered.

use vstd::prelude::*;

use crate::auth::{is_admin_spec, CurrentUser};
use crate::models::{AgentProfileRow, ResourceAclRow};
use crate::profile_compiler::AssistantDefinitionRow;
use crate::profile_schema::option_view;
use crate::text::str_eq;

verus! {

/// Whether `row` is a user entry of `principal` on the resource.
pub open spec fn grants(row: ResourceAclRow, resource_type: Seq<char>, resource_id: Seq<char>, principal: Seq<char>) -> bool {
    &&& row.resource_type@ == resource_type
    &&& row.resource_id@ == resource_id
    &&& row.principal_type@ == "user"@
    &&& row.principal_id@ == principal
}

/// Whether `acl` has an entry (any permission) of `principal` on the
/// resource.
pub open spec fn acl_member(
    acl: Seq<ResourceAclRow>,
    resource_type: Seq<char>,
    resource_id: Seq<char>,
    principal: Seq<char>,
) -> bool {
    exists|i: int| 0 <= i < acl.len() && #[trigger] grants(acl[i], resource_type, resource_id, principal)
}

/// Whether `acl` has an entry of `principal` on the resource.
pub fn is_member(acl: &Vec<ResourceAclRow>, resource_type: &str, resource_id: &str, principal: &str) -> (r: bool)
    ensures
        r == acl_member(acl@, resource_type@, resource_id@, principal@),
{
    let mut i: usize = 0;
    while i < acl.len()
        invariant
            i <= acl@.len(),
            forall|j: int| 0 <= j < i ==> !#[trigger] grants(acl@[j], resource_type@, resource_id@, principal@),
        decreases acl.len() - i,
    {
        let row = &acl[i];
        if str_eq(row.resource_type.as_str(), resource_type) && str_eq(row.resource_id.as_str(), resource_id)
            && str_eq(row.principal_type.as_str(), "user") && str_eq(row.principal_id.as_str(), principal) {
            assert(grants(acl@[i as int], resource_type@, resource_id@, principal@));
            return true;
        }
        i += 1;
    }
    false
}

/// Whether `user` reaches the profile `profile_id` through `acl`: an entry
/// for the user's id or for one of the user's roles.
pub open spec fn profile_visible(acl: Seq<ResourceAclRow>, user: CurrentUser, profile_id: Seq<char>) -> bool {
    acl_member(acl, "agent_profile"@, profile_id, user.id@) || exists|k: int|
        0 <= k < user.roles@.len() && acl_member(acl, "agent_profile"@, profile_id, #[trigger] user.roles@[k]@)
}

/// Whether `user` reaches the profile `profile_id` through `acl`.
pub fn is_profile_visible_to_user(acl: &Vec<ResourceAclRow>, user: &CurrentUser, profile_id: &str) -> (r: bool)
    ensures
        r == profile_visible(acl@, *user, profile_id@),
{
    if is_member(acl, "agent_profile", profile_id, user.id.as_str()) {
        return true;
    }
    let mut k: usize = 0;
    while k < user.roles.len()
        invariant
            k <= user.roles@.len(),
            !acl_member(acl@, "agent_profile"@, profile_id@, user.id@),
            forall|j: int|
                0 <= j < k ==> !acl_member(acl@, "agent_profile"@, profile_id@, #[trigger] user.roles@[j]@),
        decreases user.roles.len() - k,
    {
        if is_member(acl, "agent_profile", profile_id, user.roles[k].as_str()) {
            return true;
        }
        k += 1;
    }
    false
}

/// The profiles of `rows` that `user` sees, in order.
pub open spec fn visible_among(rows: Seq<AgentProfileRow>, acl: Seq<ResourceAclRow>, user: CurrentUser) -> Seq<
    AgentProfileRow,
>
    decreases rows.len(),
{
    if rows.len() == 0 {
        Seq::empty()
    } else {
        (if profile_visible(acl, user, rows[0].id@) {
            seq![rows[0]]
        } else {
            Seq::empty()
        }) + visible_among(rows.drop_first(), acl, user)
    }
}

/// `GET /api/profiles`: the active profiles `user` may see. Administrators
/// see all of them; anyone else only those the ACL grants to the user or to
/// one of the user's roles.
pub fn visible_profiles(user: &CurrentUser, active: Vec<AgentProfileRow>, acl: &Vec<ResourceAclRow>) -> (r: Vec<
    AgentProfileRow,
>)
    ensures
        is_admin_spec(*user) ==> r@ == active@,
        !is_admin_spec(*user) ==> r@ == visible_among(active@, acl@, *user),
{
    if user.is_admin() {
        return active;
    }
    let ghost original = active@;
    let mut rest = active;
    let mut r: Vec<AgentProfileRow> = Vec::new();
    while rest.len() > 0
        invariant
            r@ + visible_among(rest@, acl@, *user) == visible_among(original, acl@, *user),
        decreases rest.len(),
    {
        let ghost before = rest@;
        let row = rest.remove(0);
        assert(before.drop_first() =~= rest@);
        let keep = is_profile_visible_to_user(acl, user, row.id.as_str());
        proof {
            if keep {
                assert(r@.push(row) + visible_among(rest@, acl@, *user) =~= r@ + visible_among(before, acl@, *user));
            } else {
                assert(r@ + visible_among(rest@, acl@, *user) =~= r@ + visible_among(before, acl@, *user));
            }
        }
        if keep {
            r.push(row);
        }
    }
    assert(r@ + visible_among(rest@, acl@, *user) =~= r@);
    r
}

/// Whether `d` is a generated definition that names its source profile.
pub open spec fn is_generated_with_ref(d: AssistantDefinitionRow) -> bool {
    d.source@ == "generated"@ && d.source_ref is Some
}

/// The source profile of the generated assistant with key `key`: the
/// `source_ref` of the last generated definition with that key.
pub open spec fn generated_source_ref(defs: Seq<AssistantDefinitionRow>, key: Seq<char>) -> Option<Seq<char>>
    decreases defs.len(),
{
    if defs.len() == 0 {
        None
    } else if is_generated_with_ref(defs.last()) && defs.last().assistant_key@ == key {
        option_view(defs.last().source_ref)
    } else {
        generated_source_ref(defs.drop_last(), key)
    }
}

/// Whether the catalogue has any generated assistant tied to a profile.
pub open spec fn any_generated(defs: Seq<AssistantDefinitionRow>) -> bool {
    exists|i: int| 0 <= i < defs.len() && #[trigger] is_generated_with_ref(defs[i])
}

/// Whether `user` sees the listed assistant with id `item_id`.
pub open spec fn assistant_visible(
    defs: Seq<AssistantDefinitionRow>,
    acl: Seq<ResourceAclRow>,
    user: CurrentUser,
    item_id: Seq<char>,
) -> bool {
    if !any_generated(defs) || is_admin_spec(user) {
        true
    } else {
        match generated_source_ref(defs, item_id) {
            None => true,
            Some(profile_id) => profile_visible(acl, user, profile_id),
        }
    }
}

fn generated_source_ref_of<'a>(defs: &'a Vec<AssistantDefinitionRow>, key: &str) -> (r: Option<&'a String>)
    ensures
        match r {
            Some(s) => generated_source_ref(defs@, key@) == Some(s@),
            None => generated_source_ref(defs@, key@) is None,
        },
{
    let mut i: usize = defs.len();
    assert(defs@.take(i as int) =~= defs@);
    while i > 0
        invariant
            i <= defs@.len(),
            generated_source_ref(defs@, key@) == generated_source_ref(defs@.take(i as int), key@),
        decreases i,
    {
        let d = &defs[i - 1];
        assert(defs@.take(i as int).drop_last() =~= defs@.take(i - 1));
        assert(defs@.take(i as int).last() == defs@[i - 1]);
        if str_eq(d.source.as_str(), "generated") && str_eq(d.assistant_key.as_str(), key) {
            match &d.source_ref {
                Some(s) => {
                    return Some(s);
                },
                None => {},
            }
        }
        i -= 1;
    }
    None
}

fn has_generated(defs: &Vec<AssistantDefinitionRow>) -> (r: bool)
    ensures
        r == any_generated(defs@),
{
    let mut i: usize = 0;
    while i < defs.len()
        invariant
            i <= defs@.len(),
            forall|j: int| 0 <= j < i ==> !#[trigger] is_generated_with_ref(defs@[j]),
        decreases defs.len() - i,
    {
        if str_eq(defs[i].source.as_str(), "generated") && defs[i].source_ref.is_some() {
            assert(is_generated_with_ref(defs@[i as int]));
            return true;
        }
        i += 1;
    }
    false
}

/// `GET /api/assistants`: which of the listed assistants (by id) `user`
/// sees. An assistant generated from a profile follows that profile's gate;
/// every other assistant is kept; administrators see everything.
pub fn visible_assistants(
    defs: &Vec<AssistantDefinitionRow>,
    acl: &Vec<ResourceAclRow>,
    user: &CurrentUser,
    item_ids: &Vec<String>,
) -> (keep: Vec<bool>)
    ensures
        keep@.len() == item_ids@.len(),
        forall|i: int| 0 <= i < item_ids@.len() ==> #[trigger] keep@[i] == assistant_visible(defs@, acl@, *user, item_ids@[i]@),
{
    let everything = !has_generated(defs) || user.is_admin();
    let mut keep: Vec<bool> = Vec::new();
    let mut i: usize = 0;
    while i < item_ids.len()
        invariant
            i <= item_ids@.len(),
            everything == (!any_generated(defs@) || is_admin_spec(*user)),
            keep@.len() == i,
            forall|j: int| 0 <= j < i ==> #[trigger] keep@[j] == assistant_visible(defs@, acl@, *user, item_ids@[j]@),
        decreases item_ids.len() - i,
    {
        let visible = if everything {
            true
        } else {
            match generated_source_ref_of(defs, item_ids[i].as_str()) {
                None => true,
                Some(profile_id) => is_profile_visible_to_user(acl, user, profile_id.as_str()),
            }
        };
        keep.push(visible);
        i += 1;
    }
    keep
}

/// Whether `acl` has no user entry on an agent profile for the user's id or
/// any of the user's roles.
pub open spec fn no_profile_grants(acl: Seq<ResourceAclRow>, user: CurrentUser) -> bool {
    forall|i: int|
        0 <= i < acl.len() && (#[trigger] acl[i]).resource_type@ == "agent_profile"@ && acl[i].principal_type@
            == "user"@ ==> acl[i].principal_id@ != user.id@ && forall|k: int|
            0 <= k < user.roles@.len() ==> acl[i].principal_id@ != (#[trigger] user.roles@[k])@
}

/// Fail-closed: a user who is not an administrator and holds no grant (for
/// the user's id or any role) sees no profile at all.
pub proof fn no_grant_sees_no_profile(rows: Seq<AgentProfileRow>, acl: Seq<ResourceAclRow>, user: CurrentUser)
    requires
        no_profile_grants(acl, user),
    ensures
        visible_among(rows, acl, user).len() == 0,
    decreases rows.len(),
{
    if rows.len() > 0 {
        no_grant_sees_no_profile(rows.drop_first(), acl, user);
        assert(!profile_visible(acl, user, rows[0].id@)) by {
            if acl_member(acl, "agent_profile"@, rows[0].id@, user.id@) {
                let i = choose|i: int| 0 <= i < acl.len() && #[trigger] grants(acl[i], "agent_profile"@, rows[0].id@, user.id@);
                assert(grants(acl[i], "agent_profile"@, rows[0].id@, user.id@));
            }
            if exists|k: int|
                0 <= k < user.roles@.len() && acl_member(acl, "agent_profile"@, rows[0].id@, #[trigger] user.roles@[k]@) {
                let k = choose|k: int|
                    0 <= k < user.roles@.len() && acl_member(acl, "agent_profile"@, rows[0].id@, #[trigger] user.roles@[k]@);
                let i = choose|i: int| 0 <= i < acl.len() && #[trigger] grants(acl[i], "agent_profile"@, rows[0].id@, user.roles@[k]@);
                assert(grants(acl[i], "agent_profile"@, rows[0].id@, user.roles@[k]@));
            }
        }
    }
}

/// Assistants that were not generated from a profile are never filtered out.
pub proof fn other_assistants_always_visible(
    defs: Seq<AssistantDefinitionRow>,
    acl: Seq<ResourceAclRow>,
    user: CurrentUser,
    item_id: Seq<char>,
)
    requires
        generated_source_ref(defs, item_id) is None,
    ensures
        assistant_visible(defs, acl, user, item_id),
{
}

/// Every role counts: a user entry on the profile for the user's id, or for
/// any one of the user's roles, makes the profile visible to the user.
pub proof fn any_grant_reveals_the_profile(acl: Seq<ResourceAclRow>, user: CurrentUser, profile_id: Seq<char>, i: int)
    requires
        0 <= i < acl.len(),
        acl[i].resource_type@ == "agent_profile"@,
        acl[i].resource_id@ == profile_id,
        acl[i].principal_type@ == "user"@,
        acl[i].principal_id@ == user.id@ || exists|k: int|
            0 <= k < user.roles@.len() && acl[i].principal_id@ == (#[trigger] user.roles@[k])@,
    ensures
        profile_visible(acl, user, profile_id),
{
    assert(grants(acl[i], "agent_profile"@, profile_id, acl[i].principal_id@));
    if acl[i].principal_id@ != user.id@ {
        let k = choose|k: int| 0 <= k < user.roles@.len() && acl[i].principal_id@ == (#[trigger] user.roles@[k])@;
        assert(acl_member(acl, "agent_profile"@, profile_id, user.roles@[k]@));
    }
}

/// Visibility comes from a grant only: a profile visible to a user has a
/// user entry on it for the user's id or for one of the user's roles.
pub proof fn visibility_needs_a_grant(acl: Seq<ResourceAclRow>, user: CurrentUser, profile_id: Seq<char>)
    requires
        profile_visible(acl, user, profile_id),
    ensures
        exists|i: int|
            0 <= i < acl.len() && (#[trigger] acl[i]).resource_type@ == "agent_profile"@ && acl[i].resource_id@
                == profile_id && acl[i].principal_type@ == "user"@ && (acl[i].principal_id@ == user.id@ || exists|k: int|
                0 <= k < user.roles@.len() && acl[i].principal_id@ == (#[trigger] user.roles@[k])@),
{
    if acl_member(acl, "agent_profile"@, profile_id, user.id@) {
        let i = choose|i: int| 0 <= i < acl.len() && #[trigger] grants(acl[i], "agent_profile"@, profile_id, user.id@);
        assert(acl[i].principal_id@ == user.id@);
    } else {
        let k = choose|k: int|
            0 <= k < user.roles@.len() && acl_member(acl, "agent_profile"@, profile_id, #[trigger] user.roles@[k]@);
        let i = choose|i: int| 0 <= i < acl.len() && #[trigger] grants(acl[i], "agent_profile"@, profile_id, user.roles@[k]@);
        assert(acl[i].principal_id@ == user.roles@[k]@);
    }
}

/// The profiles a user sees are exactly the visible ones among those
/// listed: every listed profile the user reaches is kept, and everything
/// kept was listed and is reached.
pub proof fn visible_among_keeps_exactly_the_visible(rows: Seq<AgentProfileRow>, acl: Seq<ResourceAclRow>, user: CurrentUser)
    ensures
        forall|i: int|
            0 <= i < rows.len() && profile_visible(acl, user, (#[trigger] rows[i]).id@) ==> visible_among(
                rows,
                acl,
                user,
            ).contains(rows[i]),
        forall|j: int|
            0 <= j < visible_among(rows, acl, user).len() ==> rows.contains(
                #[trigger] visible_among(rows, acl, user)[j],
            ) && profile_visible(acl, user, visible_among(rows, acl, user)[j].id@),
        visible_among(rows, acl, user).len() <= rows.len(),
    decreases rows.len(),
{
    if rows.len() > 0 {
        let rest = rows.drop_first();
        visible_among_keeps_exactly_the_visible(rest, acl, user);
        let head: Seq<AgentProfileRow> = if profile_visible(acl, user, rows[0].id@) {
            seq![rows[0]]
        } else {
            Seq::empty()
        };
        let r = visible_among(rows, acl, user);
        let t = visible_among(rest, acl, user);
        assert(r == head + t);
        assert forall|i: int| 0 <= i < rows.len() && profile_visible(acl, user, (#[trigger] rows[i]).id@) implies r.contains(
            rows[i],
        ) by {
            if i == 0 {
                assert(r[0] == rows[0]);
            } else {
                assert(rest[i - 1] == rows[i]);
                let j = choose|j: int| 0 <= j < t.len() && t[j] == rows[i];
                assert(r[head.len() + j] == rows[i]);
            }
        }
        assert forall|j: int| 0 <= j < r.len() implies rows.contains(#[trigger] r[j]) && profile_visible(
            acl,
            user,
            r[j].id@,
        ) by {
            if j < head.len() {
                assert(r[j] == rows[0]);
            } else {
                assert(r[j] == t[j - head.len()]);
                let k = choose|k: int| 0 <= k < rest.len() && rest[k] == t[j - head.len()];
                assert(rows[k + 1] == rest[k]);
            }
        }
    }
}

/// A generated assistant follows its profile's gate: a user who is not an
/// administrator sees it exactly when the user reaches the profile.
pub proof fn generated_assistants_follow_their_profile(
    defs: Seq<AssistantDefinitionRow>,
    acl: Seq<ResourceAclRow>,
    user: CurrentUser,
    item_id: Seq<char>,
    profile_id: Seq<char>,
)
    requires
        generated_source_ref(defs, item_id) == Some(profile_id),
    ensures
        assistant_visible(defs, acl, user, item_id) == (is_admin_spec(user) || profile_visible(acl, user, profile_id)),
{
    lemma_a_source_means_generated(defs, item_id);
}

proof fn lemma_a_source_means_generated(defs: Seq<AssistantDefinitionRow>, key: Seq<char>)
    requires
        generated_source_ref(defs, key) is Some,
    ensures
        any_generated(defs),
    decreases defs.len(),
{
    if is_generated_with_ref(defs.last()) && defs.last().assistant_key@ == key {
        assert(is_generated_with_ref(defs[defs.len() - 1]));
    } else {
        let d = defs.drop_last();
        lemma_a_source_means_generated(d, key);
        let i = choose|i: int| 0 <= i < d.len() && #[trigger] is_generated_with_ref(d[i]);
        assert(defs[i] == d[i]);
    }
}

} // verus!
