//! The user record that the handlers read, and the responses that the
//! authentication endpoints send.
use vstd::prelude::*;
use crate::ids::{uuid_text, uuid_to_string};

verus! {

/// The stored fields of a user that the handlers read.
pub struct UserModel {
    pub id: i64,
    pub pid: u128,
    pub email: String,
    pub name: String,
    pub role: String,
    pub api_key: String,
    /// When the e-mail address was verified (RFC 3339), if it was.
    pub email_verified_at: Option<String>,
    /// When the user was created (RFC 3339).
    pub created_at: String,
}

/// What a login answers.
pub struct LoginResponse {
    pub token: String,
    pub pid: String,
    pub name: String,
    pub is_verified: bool,
    pub role: String,
}

impl LoginResponse {
    /// The login response for `user` with the issued `token`.
    pub fn new(user: &UserModel, token: &String) -> (r: Self)
        ensures
            r.token@ == token@,
            r.pid@ == uuid_text(user.pid),
            r.name@ == user.name@,
            r.is_verified == user.email_verified_at is Some,
            r.role@ == user.role@,
    {
        LoginResponse {
            token: token.clone(),
            pid: uuid_to_string(user.pid),
            name: user.name.clone(),
            is_verified: user.email_verified_at.is_some(),
            role: user.role.clone(),
        }
    }
}

/// What the current-user endpoint answers.
pub struct CurrentResponse {
    pub pid: String,
    pub name: String,
    pub email: String,
    pub role: String,
    pub api_key: String,
}

impl CurrentResponse {
    /// The description of `user`.
    pub fn new(user: &UserModel) -> (r: Self)
        ensures
            r.pid@ == uuid_text(user.pid),
            r.name@ == user.name@,
            r.email@ == user.email@,
            r.role@ == user.role@,
            r.api_key@ == user.api_key@,
    {
        CurrentResponse {
            pid: uuid_to_string(user.pid),
            name: user.name.clone(),
            email: user.email.clone(),
            role: user.role.clone(),
            api_key: user.api_key.clone(),
        }
    }
}

} // verus!
