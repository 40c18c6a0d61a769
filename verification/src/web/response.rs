//! What the service answers.

use vstd::prelude::*;

verus! {

/// The identifier of the user who signed up.
pub struct SignUpResponse {
    pub id: String,
}

/// The token issued at login.
pub struct LoginResponse {
    pub token: String,
}

/// The user that a valid token speaks for.
pub struct AuthenticateResponse {
    pub user_id: String,
}

} // verus!
