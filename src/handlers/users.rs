//! Requests on users.

use crate::models::user::UserRole;
use vstd::prelude::*;

verus! {

/// The body of a user update; an absent field stays as it is.
#[derive(Debug)]
pub struct UpdateUserRequest {
    pub name: Option<String>,
    pub email: Option<String>,
    pub role: Option<UserRole>,
    pub is_active: Option<bool>,
    pub email_verified: Option<bool>,
}

/// The body of a password change.
#[derive(Debug)]
pub struct ChangePasswordRequest {
    pub current_password: String,
    pub new_password: String,
}

/// The query of a user search.
#[derive(Debug)]
pub struct SearchUsersQuery {
    pub q: String,
    pub limit: Option<u32>,
}

} // verus!
