//! Sessions belong to projects: creating one needs a reachable project, and
//! reading or changing one needs access to its project, if it has one.
use vstd::prelude::*;
use crate::controllers::{ApiError, is_bad_request, is_unauthorized};
use crate::text::{chars_of, string_of};

verus! {

/// The fields that a create or update request carries.
pub struct Params {
    pub title: Option<String>,
    pub content: Option<String>,
    pub project_id: Option<u128>,
}

/// The project whose sessions a listing asks for, if any.
pub struct ListParams {
    pub project_id: Option<u128>,
}

/// A stored session.
pub struct SessionModel {
    pub id: u128,
    pub title: Option<String>,
    pub content: Option<String>,
    pub project_id: Option<u128>,
    /// Creation time, RFC 3339.
    pub created_at: String,
    /// Last change, RFC 3339.
    pub updated_at: String,
}

/// What the session endpoints answer for one session.
pub struct SessionResponse {
    pub id: u128,
    pub title: Option<String>,
    pub content: Option<String>,
    pub project_id: Option<u128>,
    pub created_at: String,
    pub updated_at: String,
}

impl SessionResponse {
    /// The response for session `m`.
    pub fn from(m: SessionModel) -> (r: Self)
        ensures
            r.id == m.id,
            r.title == m.title,
            r.content == m.content,
            r.project_id == m.project_id,
            r.created_at == m.created_at,
            r.updated_at == m.updated_at,
    {
        SessionResponse {
            id: m.id,
            title: m.title,
            content: m.content,
            project_id: m.project_id,
            created_at: m.created_at,
            updated_at: m.updated_at,
        }
    }
}

/// The stored fields of a session that a request may set.
pub struct SessionFields {
    pub title: Option<String>,
    pub content: Option<String>,
    pub project_id: Option<u128>,
}

impl Params {
    /// Sets each field that the request carries; the others stay.
    pub fn update(&self, item: &mut SessionFields)
        ensures
            final(item).title == match self.title {
                Some(t) => Some(t),
                None => old(item).title,
            },
            final(item).content == match self.content {
                Some(c) => Some(c),
                None => old(item).content,
            },
            final(item).project_id == match self.project_id {
                Some(p) => Some(p),
                None => old(item).project_id,
            },
    {
        if let Some(title) = &self.title {
            item.title = Some(title.clone());
        }
        if let Some(content) = &self.content {
            item.content = Some(content.clone());
        }
        if let Some(project_id) = &self.project_id {
            item.project_id = Some(*project_id);
        }
    }
}

/// A new session needs a project: its id, or `project_id is required`.
pub fn required_project(params: &Params) -> (r: Result<u128, ApiError>)
    ensures
        match params.project_id {
            Some(p) => r == Ok::<u128, ApiError>(p),
            None => r matches Err(e) && is_bad_request(e, "project_id is required"@),
        },
{
    match params.project_id {
        Some(p) => Ok(p),
        None => Err(ApiError::BadRequest(string_of(&chars_of("project_id is required")))),
    }
}

/// Listing or creating in a project needs a membership in it.
pub fn require_membership(memberships: u64) -> (r: Result<(), ApiError>)
    ensures
        r is Ok <==> memberships > 0,
        r matches Err(e) ==> is_unauthorized(e, "User does not have access to this project"@),
{
    if memberships == 0 {
        return Err(
            ApiError::Unauthorized(string_of(&chars_of("User does not have access to this project"))),
        );
    }
    Ok(())
}

/// Reading or changing a session needs a membership in its project, when
/// it has one (`memberships` counts them); a session without a project is
/// open.
pub fn check_item_access(project_id: Option<u128>, memberships: u64) -> (r: Result<(), ApiError>)
    ensures
        r is Ok <==> (project_id is None || memberships > 0),
        r matches Err(e) ==> is_unauthorized(e, "Authorized access required"@),
{
    if project_id.is_some() && memberships == 0 {
        return Err(ApiError::Unauthorized(string_of(&chars_of("Authorized access required"))));
    }
    Ok(())
}

} // verus!
