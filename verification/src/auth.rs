//! The authenticated user and the gates in front of the API.

use vstd::prelude::*;

use crate::errors::ApiError;
use crate::models::{Role, RoleRemoval, User};
use crate::text::{str_eq, trim, trim_spec};

verus! {

/// Id (and username) of the user local mode runs as.
pub const SYSTEM_DEFAULT_USER: &'static str = "system_default_user";

/// The authenticated user of a request.
#[derive(Debug, Clone)]
pub struct CurrentUser {
    /// User id in the database.
    pub id: String,
    /// Login name.
    pub username: String,
    /// Account role: `admin` or `member`.
    pub role: String,
    /// Business roles assigned to the user (RBAC).
    pub roles: Vec<String>,
}

/// Whether `roles` holds `role`.
pub open spec fn has_role(roles: Seq<String>, role: Seq<char>) -> bool {
    exists|i: int| 0 <= i < roles.len() && #[trigger] roles[i]@ == role
}

/// Whether a user is an administrator: account role `admin`, or `admin`
/// among the assigned roles.
pub open spec fn is_admin_spec(u: CurrentUser) -> bool {
    u.role@ == "admin"@ || has_role(u.roles@, "admin"@)
}

/// Whether `roles` holds `role`.
pub fn contains_role(roles: &Vec<String>, role: &str) -> (r: bool)
    ensures
        r == has_role(roles@, role@),
{
    let mut i: usize = 0;
    while i < roles.len()
        invariant
            i <= roles@.len(),
            forall|j: int| 0 <= j < i ==> (#[trigger] roles@[j])@ != role@,
        decreases roles.len() - i,
    {
        if str_eq(roles[i].as_str(), role) {
            return true;
        }
        i += 1;
    }
    false
}

impl CurrentUser {
    /// Whether this user is an administrator.
    pub fn is_admin(&self) -> (r: bool)
        ensures
            r == is_admin_spec(*self),
    {
        str_eq(self.role.as_str(), "admin") || contains_role(&self.roles, "admin")
    }
}

/// The user local (single-user, embedded) mode runs as: the system default
/// user, administrator.
pub fn local_user() -> (u: CurrentUser)
    ensures
        u.id@ == SYSTEM_DEFAULT_USER@,
        u.username@ == SYSTEM_DEFAULT_USER@,
        u.role@ == "admin"@,
        u.roles@.len() == 0,
        is_admin_spec(u),
{
    CurrentUser {
        id: String::from_str(SYSTEM_DEFAULT_USER),
        username: String::from_str(SYSTEM_DEFAULT_USER),
        role: String::from_str("admin"),
        roles: Vec::new(),
    }
}

/// The user a verified token names, given the account found for its
/// subject (and that account's roles): 401 when there is no such account,
/// 403 when it is deactivated.
pub fn current_user_for(account: Option<User>, roles: Vec<String>) -> (r: Result<CurrentUser, ApiError>)
    ensures
        match account {
            None => r matches Err(ApiError::Unauthorized(m)) && m@ == "Invalid authentication subject"@,
            Some(u) => if !u.is_active {
                r matches Err(ApiError::Forbidden(m)) && m@ == "Account is deactivated"@
            } else {
                r matches Ok(c) && c.id == u.id && c.username == u.username && c.role == u.role && c.roles
                    == roles
            },
        },
{
    match account {
        None => Err(ApiError::Unauthorized(String::from_str("Invalid authentication subject"))),
        Some(u) => {
            if !u.is_active {
                return Err(ApiError::Forbidden(String::from_str("Account is deactivated")));
            }
            Ok(CurrentUser { id: u.id, username: u.username, role: u.role, roles })
        },
    }
}

/// The admin-only guard (stacked after authentication): 500 when no user was
/// authenticated, 403 for a user who is not an administrator.
pub fn require_admin_user(user: Option<&CurrentUser>) -> (r: Result<(), ApiError>)
    ensures
        match user {
            None => r matches Err(ApiError::Internal(m)) && m@
                == "CurrentUser missing — apply auth_middleware first"@,
            Some(u) => if is_admin_spec(*u) {
                r is Ok
            } else {
                r matches Err(ApiError::Forbidden(m)) && m@ == "Admin access required"@
            },
        },
{
    match user {
        None => Err(ApiError::Internal(String::from_str("CurrentUser missing — apply auth_middleware first"))),
        Some(u) => if u.is_admin() {
            Ok(())
        } else {
            Err(ApiError::Forbidden(String::from_str("Admin access required")))
        },
    }
}

/// Access to role management: open in local mode; otherwise the user must
/// hold the `admin` role (refused without a user).
pub fn admin_panel_gate(local: bool, user: Option<&CurrentUser>) -> (r: Result<(), ApiError>)
    ensures
        local ==> r is Ok,
        !local && (user matches Some(u) && has_role(u.roles@, "admin"@)) ==> r is Ok,
        !local && !(user matches Some(u) && has_role(u.roles@, "admin"@)) ==> (r matches Err(
            ApiError::Forbidden(m),
        ) && m@ == "Admin role required"@),
{
    if local {
        return Ok(());
    }
    let allowed = match user {
        Some(u) => contains_role(&u.roles, "admin"),
        None => false,
    };
    if !allowed {
        return Err(ApiError::Forbidden(String::from_str("Admin role required")));
    }
    Ok(())
}

/// The trimmed role of an assign-role request (400 when blank).
pub fn role_to_assign(role: &str) -> (r: Result<String, ApiError>)
    ensures
        trim_spec(role@).len() == 0 ==> (r matches Err(ApiError::BadRequest(m)) && m@ == "role must not be empty"@),
        trim_spec(role@).len() > 0 ==> (r matches Ok(t) && t@ == trim_spec(role@)),
{
    let t = trim(role);
    if t.as_str().is_empty() {
        return Err(ApiError::BadRequest(String::from_str("role must not be empty")));
    }
    Ok(t)
}

/// Whether `id` is the id of a role of `catalogue`.
pub open spec fn is_known_role(catalogue: Seq<Role>, id: Seq<char>) -> bool {
    exists|i: int| 0 <= i < catalogue.len() && #[trigger] catalogue[i].id@ == id
}

/// A role can only be assigned when the catalogue has it (400 otherwise).
pub fn ensure_known_role(role: &str, catalogue: &Vec<Role>) -> (r: Result<(), ApiError>)
    ensures
        is_known_role(catalogue@, role@) ==> r is Ok,
        !is_known_role(catalogue@, role@) ==> (r matches Err(ApiError::BadRequest(m)) && m@ == "Unknown role '"@
            + role@ + "'"@),
{
    let mut i: usize = 0;
    while i < catalogue.len()
        invariant
            i <= catalogue@.len(),
            forall|j: int| 0 <= j < i ==> (#[trigger] catalogue@[j]).id@ != role@,
        decreases catalogue.len() - i,
    {
        if str_eq(catalogue[i].id.as_str(), role) {
            return Ok(());
        }
        i += 1;
    }
    let mut m = String::from_str("Unknown role '");
    m.append(role);
    m.append("'");
    Err(ApiError::BadRequest(m))
}

/// 404 for a user id that names no account.
pub fn ensure_user_exists(user_id: &str, found: bool) -> (r: Result<(), ApiError>)
    ensures
        found ==> r is Ok,
        !found ==> (r matches Err(ApiError::NotFound(m)) && m@ == "User '"@ + user_id@ + "' not found"@),
{
    if !found {
        let mut m = String::from_str("User '");
        m.append(user_id);
        m.append("' not found");
        return Err(ApiError::NotFound(m));
    }
    Ok(())
}

/// The answer to a role removal: removing the last admin role is a 409.
pub fn role_removal_result(outcome: RoleRemoval) -> (r: Result<(), ApiError>)
    ensures
        outcome == RoleRemoval::Removed ==> r is Ok,
        outcome == RoleRemoval::WouldLeaveNoAdmins ==> (r matches Err(ApiError::Conflict(m)) && m@
            == "No puedes quitar el último rol admin del sistema"@),
{
    match outcome {
        RoleRemoval::Removed => Ok(()),
        RoleRemoval::WouldLeaveNoAdmins => Err(
            ApiError::Conflict(String::from_str("No puedes quitar el último rol admin del sistema")),
        ),
    }
}

/// What removing `role_id` from a user does, given whether the user holds
/// it and how many users hold it: whether the user's entry is deleted, and
/// the outcome. A role other than `admin` is deleted outright (a no-op when
/// not held); `admin` is kept on its last holder.
pub open spec fn role_removal_spec(role_id: Seq<char>, user_holds: bool, holders: u64) -> (bool, RoleRemoval) {
    if role_id != "admin"@ {
        (true, RoleRemoval::Removed)
    } else if !user_holds {
        (false, RoleRemoval::Removed)
    } else if holders > 1 {
        (true, RoleRemoval::Removed)
    } else {
        (false, RoleRemoval::WouldLeaveNoAdmins)
    }
}

/// The removal of `role_id` from a user who holds it (`user_holds`) when
/// `holders` users hold it.
pub fn role_removal_decision(role_id: &str, user_holds: bool, holders: u64) -> (r: (bool, RoleRemoval))
    ensures
        r == role_removal_spec(role_id@, user_holds, holders),
{
    if !str_eq(role_id, "admin") {
        (true, RoleRemoval::Removed)
    } else if !user_holds {
        (false, RoleRemoval::Removed)
    } else if holders > 1 {
        (true, RoleRemoval::Removed)
    } else {
        (false, RoleRemoval::WouldLeaveNoAdmins)
    }
}

/// Removing a role never leaves the system without an administrator: when
/// someone holds `admin`, someone still holds it afterwards.
pub proof fn role_removal_keeps_an_admin(role_id: Seq<char>, user_holds: bool, holders: u64)
    requires
        holders >= 1,
    ensures
        ({
            let (deleted, _) = role_removal_spec(role_id, user_holds, holders);
            role_id == "admin"@ ==> holders - (if deleted && user_holds { 1int } else { 0int }) >= 1
        }),
{
}

} // verus!
