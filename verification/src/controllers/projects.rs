//! Projects: who may create and reach them, how they change, and when a
//! user search runs.
use vstd::prelude::*;
use crate::controllers::{ApiError, is_bad_request, is_unauthorized};
use crate::text::{chars_of, same_text, string_of};
use crate::views::UserModel;

verus! {

/// The stored fields of a project that an update may change.
pub struct ProjectFields {
    pub name: String,
    pub description: Option<String>,
}

/// What a new project is created with.
pub struct CreateProjectParams {
    pub name: String,
    pub description: Option<String>,
}

/// Whom a project is shared with: the user of this e-mail address.
pub struct ShareProjectParams {
    pub email: String,
}

/// A stored project.
pub struct ProjectModel {
    pub id: u128,
    pub name: String,
    pub description: Option<String>,
    /// Creation time, RFC 3339.
    pub created_at: String,
    /// Last change, RFC 3339.
    pub updated_at: String,
}

/// What the project endpoints answer for one project.
pub struct ProjectResponse {
    pub id: u128,
    pub name: String,
    pub description: Option<String>,
    pub created_at: String,
    pub updated_at: String,
    /// The caller's role in the project; not filled in yet.
    pub role: Option<String>,
}

impl ProjectResponse {
    /// The response for project `m`, without a role.
    pub fn from(m: ProjectModel) -> (r: Self)
        ensures
            r.id == m.id,
            r.name == m.name,
            r.description == m.description,
            r.created_at == m.created_at,
            r.updated_at == m.updated_at,
            r.role is None,
    {
        ProjectResponse {
            id: m.id,
            name: m.name,
            description: m.description,
            created_at: m.created_at,
            updated_at: m.updated_at,
            role: None,
        }
    }
}

/// One user found by the user search.
pub struct UserSearchResponse {
    pub id: i64,
    pub name: String,
    pub email: String,
}

/// The changes that an update asks for.
pub struct UpdateProjectParams {
    pub name: Option<String>,
    pub description: Option<String>,
}

/// How many users a search returns at most.
pub const SEARCH_LIMIT: u64 = 10;

/// Viewers may not create projects; everybody else may.
pub fn ensure_can_create(user: &UserModel) -> (r: Result<(), ApiError>)
    ensures
        r is Ok <==> user.role@ != "viewer"@,
        r matches Err(e) ==> is_unauthorized(e, "Viewers cannot create projects"@),
{
    if same_text(user.role.as_str(), "viewer") {
        return Err(ApiError::Unauthorized(string_of(&chars_of("Viewers cannot create projects"))));
    }
    Ok(())
}

/// A user reaches a project when at least one membership links them.
pub fn require_project_access(memberships: u64) -> (r: Result<(), ApiError>)
    ensures
        r is Ok <==> memberships > 0,
        r matches Err(e) ==> is_unauthorized(e, "User does not have access to this project"@),
{
    if memberships == 0 {
        return Err(
            ApiError::Unauthorized(string_of(&chars_of("User does not have access to this project"))),
        );
    }
    Ok(())
}

/// A project is shared with a user only if they are not a member yet.
pub fn check_not_member(target_memberships: u64) -> (r: Result<(), ApiError>)
    ensures
        r is Ok <==> target_memberships == 0,
        r matches Err(e) ==> is_bad_request(e, "User is already a member of this project"@),
{
    if target_memberships > 0 {
        return Err(
            ApiError::BadRequest(string_of(&chars_of("User is already a member of this project"))),
        );
    }
    Ok(())
}

/// The user a project is shared with, looked up by email; an unknown email
/// is answered `NotFound` (404, as the share endpoint documents).
pub fn share_target<T>(found: Option<T>) -> (r: Result<T, ApiError>)
    ensures
        match found {
            Some(u) => r == Ok::<T, ApiError>(u),
            None => r matches Err(ApiError::NotFound),
        },
{
    match found {
        Some(u) => Ok(u),
        None => Err(ApiError::NotFound),
    }
}

/// A user search runs only for a query of at least two bytes; shorter
/// queries answer an empty list.
pub fn search_query_runs(q: &str) -> (r: bool)
    ensures
        r == (q.len() >= 2),
{
    q.len() >= 2
}

impl UpdateProjectParams {
    /// Applies the asked changes: a given name replaces the name, a given
    /// description replaces the description; absent fields stay.
    pub fn apply(self, item: &mut ProjectFields)
        ensures
            final(item).name == match self.name {
                Some(n) => n,
                None => old(item).name,
            },
            final(item).description == match self.description {
                Some(d) => Some(d),
                None => old(item).description,
            },
    {
        if let Some(name) = self.name {
            item.name = name;
        }
        if let Some(desc) = self.description {
            item.description = Some(desc);
        }
    }
}

} // verus!
