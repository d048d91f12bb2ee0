//! Role guards of the API's protected routes.
use vstd::prelude::*;
use crate::auth::{role_name, UserRoleKind};
use crate::auth_utils::SessionClaims;
use crate::error::AppError;
use crate::text::text_eq;

verus! {

/// The outcome of a role guard: no claims is `Unauthorized`, a role outside
/// the allowed ones is `Forbidden`.
pub open spec fn guard_outcome(claims: Option<&SessionClaims>, allowed: bool, r: Result<(), AppError>) -> bool {
    match claims {
        None => r matches Err(AppError::Unauthorized),
        Some(_) => if allowed {
            r is Ok
        } else {
            r matches Err(AppError::Forbidden)
        },
    }
}

/// Whether a role name may use administration routes.
pub open spec fn admin_allowed(role: Seq<char>) -> bool {
    role == "Admin"@
}

/// Whether a role name may use security routes.
pub open spec fn security_allowed(role: Seq<char>) -> bool {
    role == "Admin"@ || role == "Security"@
}

/// Whether a role name may use employee routes.
pub open spec fn employee_allowed(role: Seq<char>) -> bool {
    role == "Admin"@ || role == "Employee"@
}

/// Lets through only administrators.
pub fn require_admin(claims: Option<&SessionClaims>) -> (r: Result<(), AppError>)
    ensures
        guard_outcome(claims, claims matches Some(c) && admin_allowed(c.role_name@), r),
{
    let c = match claims {
        Some(c) => c,
        None => return Err(AppError::Unauthorized),
    };
    if !text_eq(c.role_name.as_str(), "Admin") {
        return Err(AppError::Forbidden);
    }
    Ok(())
}

/// Lets through administrators and security staff.
pub fn require_security(claims: Option<&SessionClaims>) -> (r: Result<(), AppError>)
    ensures
        guard_outcome(claims, claims matches Some(c) && security_allowed(c.role_name@), r),
{
    let c = match claims {
        Some(c) => c,
        None => return Err(AppError::Unauthorized),
    };
    if !text_eq(c.role_name.as_str(), "Admin") && !text_eq(c.role_name.as_str(), "Security") {
        return Err(AppError::Forbidden);
    }
    Ok(())
}

/// Lets through administrators and employees.
pub fn require_employee(claims: Option<&SessionClaims>) -> (r: Result<(), AppError>)
    ensures
        guard_outcome(claims, claims matches Some(c) && employee_allowed(c.role_name@), r),
{
    let c = match claims {
        Some(c) => c,
        None => return Err(AppError::Unauthorized),
    };
    if !text_eq(c.role_name.as_str(), "Admin") && !text_eq(c.role_name.as_str(), "Employee") {
        return Err(AppError::Forbidden);
    }
    Ok(())
}


/// A session of each role passes the guards meant for it: administrators
/// pass every guard, security staff only the security guard, employees only
/// the employee guard; a role name of no account passes none.
pub proof fn law_guards_by_role(k: UserRoleKind, other: Seq<char>)
    requires
        other != role_name(UserRoleKind::Admin),
        other != role_name(UserRoleKind::Security),
        other != role_name(UserRoleKind::Employee),
    ensures
        admin_allowed(role_name(k)) <==> k == UserRoleKind::Admin,
        security_allowed(role_name(k)) <==> k != UserRoleKind::Employee,
        employee_allowed(role_name(k)) <==> k != UserRoleKind::Security,
        !admin_allowed(other) && !security_allowed(other) && !employee_allowed(other),
{
    reveal_strlit("Admin");
    reveal_strlit("Security");
    reveal_strlit("Employee");
    assert("Admin"@.len() != "Security"@.len());
    assert("Admin"@.len() != "Employee"@.len());
    assert("Security"@[0] != "Employee"@[0]);
}

/// Administrators pass every role guard.
pub proof fn law_admin_passes_every_guard(role: Seq<char>)
    requires
        admin_allowed(role),
    ensures
        security_allowed(role),
        employee_allowed(role),
{
}

} // verus!
