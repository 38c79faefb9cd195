//! Which credential a request presents: a bearer token first, then an API
//! key.
use vstd::prelude::*;
use crate::controllers::{ApiError, is_unauthorized};
use crate::ids::{parse_uuid, uuid_parse};
use crate::text::{chars_of, copy_range, starts_with, starts_with_spec, string_of};

verus! {

/// A request header as the handler sees it.
pub enum HeaderText {
    /// The header is not there.
    Absent,
    /// The header is there but is not visible ASCII.
    Unreadable,
    /// The header's text.
    Text(String),
}

/// What the handler checks next.
pub enum AuthAttempt {
    /// Validate this bearer token.
    Jwt(String),
    /// Look this API key up.
    ApiKey(String),
    /// Reject the request with this error.
    Reject(ApiError),
}

/// The token of an `Authorization: Bearer {token}` header.
pub open spec fn bearer_token_spec(authorization: Seq<char>) -> Option<Seq<char>> {
    if starts_with_spec(authorization, "Bearer "@) {
        Some(authorization.skip("Bearer "@.len() as int))
    } else {
        None
    }
}

/// The token of a bearer `Authorization` header, if it is one.
pub fn bearer_token(authorization: &str) -> (r: Option<String>)
    ensures
        match r {
            Some(t) => bearer_token_spec(authorization@) == Some(t@),
            None => bearer_token_spec(authorization@) is None,
        },
{
    let a = chars_of(authorization);
    let prefix = chars_of("Bearer ");
    if starts_with(&a, &prefix) {
        let t = copy_range(&a, prefix.len(), a.len());
        assert(t@ =~= a@.skip(prefix@.len() as int));
        Some(string_of(&t))
    } else {
        None
    }
}

/// `r` is the next step that the API key header `api_key` leads to.
pub open spec fn api_key_outcome(api_key: HeaderText, r: AuthAttempt) -> bool {
    match api_key {
        HeaderText::Absent => r matches AuthAttempt::Reject(e) && is_unauthorized(e, "unauthorized"@),
        HeaderText::Unreadable => r matches AuthAttempt::Reject(e) && is_unauthorized(
            e,
            "invalid api key"@,
        ),
        HeaderText::Text(k) => r matches AuthAttempt::ApiKey(rk) && rk@ == k@,
    }
}

/// The step after the bearer token was rejected or absent: the API key
/// when its header is readable, `invalid api key` when it is not, and
/// `unauthorized` without one.
pub fn api_key_attempt(api_key: &HeaderText) -> (r: AuthAttempt)
    ensures
        api_key_outcome(*api_key, r),
{
    match api_key {
        HeaderText::Absent => AuthAttempt::Reject(ApiError::Unauthorized(string_of(&chars_of("unauthorized")))),
        HeaderText::Unreadable => AuthAttempt::Reject(ApiError::Unauthorized(string_of(&chars_of("invalid api key")))),
        HeaderText::Text(k) => AuthAttempt::ApiKey(string_of(&chars_of(k.as_str()))),
    }
}

/// The first check for a request: a readable bearer `Authorization` header
/// gives its token; otherwise the API key decides.
pub fn first_attempt(authorization: &HeaderText, api_key: &HeaderText) -> (r: AuthAttempt)
    ensures
        match authorization {
            HeaderText::Text(a) if bearer_token_spec(a@) is Some => r matches AuthAttempt::Jwt(t)
                && Some(t@) == bearer_token_spec(a@),
            _ => api_key_outcome(*api_key, r),
        },
{
    match authorization {
        HeaderText::Text(a) => {
            match bearer_token(a.as_str()) {
                Some(t) => AuthAttempt::Jwt(t),
                None => api_key_attempt(api_key),
            }
        },
        _ => api_key_attempt(api_key),
    }
}

/// The user id carried by valid token claims; a malformed id is
/// `invalid token`.
pub fn pid_from_claims(pid: &str) -> (r: Result<u128, ApiError>)
    ensures
        match uuid_parse(pid@) {
            Ok(v) => r == Ok::<u128, ApiError>(v),
            Err(_) => r matches Err(e) && is_unauthorized(e, "invalid token"@),
        },
{
    match parse_uuid(pid) {
        Ok(v) => Ok(v),
        Err(_) => Err(ApiError::Unauthorized(string_of(&chars_of("invalid token")))),
    }
}

} // verus!
