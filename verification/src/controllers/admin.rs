//! Administration of users: only administrators may list, inspect, promote,
//! demote or reset other users, and nobody may demote themselves.
use vstd::prelude::*;
use crate::controllers::{ApiError, is_bad_request, is_unauthorized};
use crate::text::{chars_of, same_text, string_of};
use crate::views::UserModel;

verus! {

/// The new password that an administrator sets for a user.
pub struct ResetPasswordParams {
    pub password: String,
}

/// What the user administration endpoints answer for one user.
pub struct UserResponse {
    pub id: i64,
    pub pid: u128,
    pub email: String,
    pub name: String,
    pub role: String,
    pub created_at: String,
}

impl UserResponse {
    /// The response for user `m`.
    pub fn from(m: UserModel) -> (r: Self)
        ensures
            r.id == m.id,
            r.pid == m.pid,
            r.email == m.email,
            r.name == m.name,
            r.role == m.role,
            r.created_at == m.created_at,
    {
        UserResponse {
            id: m.id,
            pid: m.pid,
            email: m.email,
            name: m.name,
            role: m.role,
            created_at: m.created_at,
        }
    }
}

/// Admits only users whose role is `admin`.
pub fn ensure_admin(user: &UserModel) -> (r: Result<(), ApiError>)
    ensures
        r is Ok <==> user.role@ == "admin"@,
        r matches Err(e) ==> is_unauthorized(e, "Access denied: Admins only"@),
{
    if !same_text(user.role.as_str(), "admin") {
        return Err(ApiError::Unauthorized(string_of(&chars_of("Access denied: Admins only"))));
    }
    Ok(())
}

/// The role that `current` gives the promoted user: `admin`, if `current`
/// is an administrator.
pub fn promote(current: &UserModel) -> (r: Result<String, ApiError>)
    ensures
        current.role@ == "admin"@ ==> (r matches Ok(role) && role@ == "admin"@),
        current.role@ != "admin"@ ==> (r matches Err(e) && is_unauthorized(e, "Access denied: Admins only"@)),
{
    ensure_admin(current)?;
    Ok(string_of(&chars_of("admin")))
}

/// The role that `current` gives the demoted user `target_pid`: `user`, if
/// `current` is an administrator other than the target.
pub fn demote(current: &UserModel, target_pid: u128) -> (r: Result<String, ApiError>)
    ensures
        current.role@ != "admin"@ ==> (r matches Err(e) && is_unauthorized(e, "Access denied: Admins only"@)),
        current.role@ == "admin"@ && current.pid == target_pid ==> (r matches Err(e) && is_bad_request(
            e,
            "Cannot demote yourself"@,
        )),
        current.role@ == "admin"@ && current.pid != target_pid ==> (r matches Ok(role) && role@
            == "user"@),
{
    ensure_admin(current)?;
    if current.pid == target_pid {
        return Err(ApiError::BadRequest(string_of(&chars_of("Cannot demote yourself"))));
    }
    Ok(string_of(&chars_of("user")))
}

} // verus!
