//! What the JSON front end answers.

use vstd::prelude::*;

verus! {

/// The identifier of the user who signed up.
pub struct SignUpResponse {
    pub id: i32,
}

/// The token issued at login.
pub struct LoginResponse {
    pub token: String,
}

/// The user that a valid token speaks for.
pub struct AuthenticateResponse {
    pub user_id: i32,
}

} // verus!
