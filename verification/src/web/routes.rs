//! The handlers of the protobuf front end: how each starts and how each
//! turns the decision of its state machine into a response.

use super::request::{LoginRequest, SignUpRequest};
use super::response::{AuthenticateResponse, LoginResponse, SignUpResponse};
use crate::handlers::{
    login_start, sign_up_start, unauthorized, CreateUserRequest, LoginAction, LoginState,
    SignUpAction, SignUpState,
};
use crate::host::jwt::ClaimsUser;
use crate::status::{StatusCode, UNAUTHORIZED};
use vstd::prelude::*;

verus! {

/// Starts signing up: the users service is asked for a user with the
/// requested name, and the password is kept for hashing.
pub fn start_sign_up(request: SignUpRequest) -> (out: (SignUpState<String>, SignUpAction<String>))
    ensures
        out.0 == (SignUpState::<String>::CreatingUser { password: request.password }),
        out.1 == SignUpAction::<String>::CreateUser(
            (CreateUserRequest { username: request.username }),
        ),
{
    sign_up_start(request.username, request.password)
}

/// The sign-up response: the new user's identifier, or the status.
pub fn sign_up_reply(reply: Result<String, StatusCode>) -> (res: Result<SignUpResponse, StatusCode>)
    ensures
        match reply {
            Ok(id) => res matches Ok(r) && r.id == id,
            Err(code) => res matches Err(c) && c == code,
        },
{
    match reply {
        Ok(id) => Ok(SignUpResponse { id }),
        Err(code) => Err(code),
    }
}

/// Starts logging in: the repository is asked for the user by name.
pub fn start_login(request: LoginRequest) -> (out: (LoginState, LoginAction))
    ensures
        out.0 == (LoginState::FindingUser { password: request.password }),
        out.1 == (LoginAction::FindUser { username: request.username }),
{
    login_start(request.username, request.password)
}

/// The login response: the token, or the status.
pub fn login_reply(reply: Result<String, StatusCode>) -> (res: Result<LoginResponse, StatusCode>)
    ensures
        match reply {
            Ok(token) => res matches Ok(r) && r.token == token,
            Err(code) => res matches Err(c) && c == code,
        },
{
    match reply {
        Ok(token) => Ok(LoginResponse { token }),
        Err(code) => Err(code),
    }
}

/// The token check's response once the token's claims were verified: the
/// user id of the claims, or 401 when the token is not valid.
pub fn verify_token_reply(claims: Result<ClaimsUser, ()>) -> (res: Result<
    AuthenticateResponse,
    StatusCode,
>)
    ensures
        match claims {
            Ok(c) => res matches Ok(r) && r.user_id == c.id,
            Err(_) => res matches Err(code) && code == unauthorized() && code.code == 401,
        },
{
    match claims {
        Ok(c) => Ok(AuthenticateResponse { user_id: c.id }),
        Err(_) => Err(StatusCode { code: UNAUTHORIZED }),
    }
}

} // verus!
