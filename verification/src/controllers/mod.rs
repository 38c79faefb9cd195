//! The decisions of the HTTP handlers: who may do what, which fields change,
//! and the texts they answer with.
pub mod admin;
pub mod api_auth;
pub mod blobs;
pub mod chat;
pub mod openapi;
pub mod projects;
pub mod sessions;

use vstd::prelude::*;

verus! {

/// The failures that the handlers answer with.
pub enum ApiError {
    /// 401, with its message.
    Unauthorized(String),
    /// 400, with its message.
    BadRequest(String),
    /// 404.
    NotFound,
}

/// The error is `Unauthorized` with message `m`.
pub open spec fn is_unauthorized(e: ApiError, m: Seq<char>) -> bool {
    e matches ApiError::Unauthorized(t) && t@ == m
}

/// The error is `BadRequest` with message `m`.
pub open spec fn is_bad_request(e: ApiError, m: Seq<char>) -> bool {
    e matches ApiError::BadRequest(t) && t@ == m
}

} // verus!
