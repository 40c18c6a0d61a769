//! What callers send to the service.

use vstd::prelude::*;

verus! {

/// Signs a new user up with a password.
pub struct SignUpRequest {
    pub username: String,
    pub password: String,
}

/// Logs a user in with a password.
pub struct LoginRequest {
    pub username: String,
    pub password: String,
}

/// Asks whether a token is valid.
pub struct AuthenticateRequest {
    pub token: String,
}

} // verus!
