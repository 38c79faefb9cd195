//! The chat endpoints: a session must exist, and its task queue is queued,
//! cancelled and retried through the queue rules.
use vstd::prelude::*;
use crate::controllers::{ApiError, is_bad_request};
use crate::text::{chars_of, string_of};

pub use crate::agent::queue::{cancel_session, queue_tasks, retry_session};

verus! {

/// A chat message sent by the user.
pub struct ChatParams {
    pub message: String,
}

/// The tasks to queue for a session, in order.
pub struct QueueTasksParams {
    pub tasks: Vec<String>,
}

/// A stored message.
pub struct MessageModel {
    pub id: u128,
    pub session_id: u128,
    pub role: String,
    pub content: String,
    /// Creation time, RFC 3339.
    pub created_at: String,
}

/// A stored message as the chat endpoints answer it.
pub struct MessageResponse {
    pub id: u128,
    pub session_id: u128,
    pub role: String,
    pub content: String,
    /// Creation time, RFC 3339.
    pub created_at: String,
}

impl MessageResponse {
    /// The response for message `m`.
    pub fn from(m: MessageModel) -> (r: Self)
        ensures
            r.id == m.id,
            r.session_id == m.session_id,
            r.role == m.role,
            r.content == m.content,
            r.created_at == m.created_at,
    {
        MessageResponse { id: m.id, session_id: m.session_id, role: m.role, content: m.content, created_at: m.created_at }
    }
}

/// A session that was looked up, or `NotFound`.
pub fn check_session_access<T>(session: Option<T>) -> (r: Result<T, ApiError>)
    ensures
        match session {
            Some(s) => r == Ok::<T, ApiError>(s),
            None => r matches Err(ApiError::NotFound),
        },
{
    match session {
        Some(s) => Ok(s),
        None => Err(ApiError::NotFound),
    }
}

/// A session is retried only when tasks are pending; otherwise the request
/// is refused with "No pending tasks to retry".
pub fn check_retry(pending_tasks: &Vec<String>) -> (r: Result<(), ApiError>)
    ensures
        r is Ok <==> pending_tasks@.len() > 0,
        r matches Err(e) ==> is_bad_request(e, "No pending tasks to retry"@),
{
    if pending_tasks.len() == 0 {
        return Err(ApiError::BadRequest(string_of(&chars_of("No pending tasks to retry"))));
    }
    Ok(())
}

} // verus!
