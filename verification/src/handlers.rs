//! The decisions of the service's HTTP handlers.
//!
//! Each handler alternates between work that the caller does (asking the
//! users service, hashing, querying the repository, signing a token) and a
//! decision about what to do with the answer. The decisions are state
//! machines here: from a state and the answer to the last piece of work,
//! they give the next state and the next piece of work, or the reply.

use crate::host::jwt::ClaimsUser;
use crate::host::repository::error::QueryError;
use crate::host::repository::users::User;
use crate::status::{StatusCode, INTERNAL_SERVER_ERROR, UNAUTHORIZED};
use vstd::prelude::*;

verus! {

/// An identifier of a user as the users service hands it out.
pub trait UserId: Sized {
    /// A copy of the identifier.
    fn duplicate(&self) -> (c: Self)
        ensures
            c == *self,
    ;
}

impl UserId for String {
    fn duplicate(&self) -> (c: String) {
        self.clone()
    }
}

impl UserId for i32 {
    fn duplicate(&self) -> (c: i32) {
        *self
    }
}

/// Asks the users service to create a user.
pub struct CreateUserRequest {
    pub username: String,
}

/// The users service's answer: the new user's identifier.
pub struct CreateUserResponse<Id> {
    pub id: Id,
}

/// Why the users service did not create the user.
pub enum UsersClientError {
    /// The service answered with this status.
    Status(StatusCode),
    /// The service could not be reached or its answer could not be read.
    Other,
}

/// The status that answers a failure of a service that a handler relies on.
pub open spec fn internal_error() -> StatusCode {
    StatusCode { code: INTERNAL_SERVER_ERROR }
}

/// The status that answers a caller who could not be authenticated.
pub open spec fn unauthorized() -> StatusCode {
    StatusCode { code: UNAUTHORIZED }
}

// ---------------------------------------------------------------------------
// Sign-up
// ---------------------------------------------------------------------------

/// Where a sign-up stands.
pub enum SignUpState<Id> {
    /// Waiting for the users service to create the user.
    CreatingUser { password: String },
    /// Waiting for the hash of the password of the created user.
    HashingPassword { user_id: Id },
    /// Waiting for the repository to store the hash.
    StoringPassword { user_id: Id },
    /// The sign-up has answered.
    Finished,
}

/// What the caller reports back during a sign-up.
pub enum SignUpEvent<Id> {
    /// The users service's answer.
    UserCreated(Result<CreateUserResponse<Id>, UsersClientError>),
    /// The password hash, or the failure to compute it.
    PasswordHashed(Result<String, ()>),
    /// Whether the repository stored the hash.
    PasswordStored(Result<(), ()>),
}

/// What the caller is to do next during a sign-up.
pub enum SignUpAction<Id> {
    /// Ask the users service to create the user.
    CreateUser(CreateUserRequest),
    /// Hash the password.
    HashPassword { password: String },
    /// Store the hash as the password of the user.
    StorePassword { user_id: Id, password_hash: String },
    /// Answer with the new user's identifier, or with a status.
    Reply(Result<Id, StatusCode>),
}

/// The event that each sign-up state waits for.
pub open spec fn sign_up_awaits<Id>(state: SignUpState<Id>, event: SignUpEvent<Id>) -> bool {
    match state {
        SignUpState::CreatingUser { .. } => event is UserCreated,
        SignUpState::HashingPassword { .. } => event is PasswordHashed,
        SignUpState::StoringPassword { .. } => event is PasswordStored,
        SignUpState::Finished => false,
    }
}

/// One step of a sign-up.
pub open spec fn sign_up_transition<Id>(
    state: SignUpState<Id>,
    event: SignUpEvent<Id>,
    next: SignUpState<Id>,
    action: SignUpAction<Id>,
) -> bool {
    match (state, event) {
        (SignUpState::CreatingUser { password }, SignUpEvent::UserCreated(r)) => match r {
            Ok(created) => next == SignUpState::HashingPassword { user_id: created.id } && action
                == SignUpAction::<Id>::HashPassword { password },
            Err(UsersClientError::Status(code)) => next is Finished && action
                == SignUpAction::<Id>::Reply(Err(code)),
            Err(UsersClientError::Other) => next is Finished && action == SignUpAction::<Id>::Reply(
                Err(internal_error()),
            ),
        },
        (SignUpState::HashingPassword { user_id }, SignUpEvent::PasswordHashed(r)) => match r {
            Ok(password_hash) => next == SignUpState::StoringPassword { user_id } && action
                == SignUpAction::StorePassword { user_id, password_hash },
            Err(_) => next is Finished && action == SignUpAction::<Id>::Reply(Err(internal_error())),
        },
        (SignUpState::StoringPassword { user_id }, SignUpEvent::PasswordStored(r)) => next
            is Finished && match r {
            Ok(_) => action == SignUpAction::<Id>::Reply(Ok(user_id)),
            Err(_) => action == SignUpAction::<Id>::Reply(Err(internal_error())),
        },
        _ => false,
    }
}

/// Starts a sign-up: the users service is asked to create the user.
pub fn sign_up_start<Id>(username: String, password: String) -> (out: (
    SignUpState<Id>,
    SignUpAction<Id>,
))
    ensures
        out.0 == (SignUpState::<Id>::CreatingUser { password }),
        out.1 == SignUpAction::<Id>::CreateUser((CreateUserRequest { username })),
{
    (SignUpState::CreatingUser { password }, SignUpAction::CreateUser(CreateUserRequest { username }))
}

/// Takes one step of a sign-up.
pub fn sign_up_step<Id: UserId>(state: SignUpState<Id>, event: SignUpEvent<Id>) -> (out: (
    SignUpState<Id>,
    SignUpAction<Id>,
))
    requires
        sign_up_awaits(state, event),
    ensures
        sign_up_transition(state, event, out.0, out.1),
{
    let internal = StatusCode { code: INTERNAL_SERVER_ERROR };
    match state {
        SignUpState::CreatingUser { password } => match event {
            SignUpEvent::UserCreated(Ok(created)) => (
                SignUpState::HashingPassword { user_id: created.id },
                SignUpAction::HashPassword { password },
            ),
            SignUpEvent::UserCreated(Err(UsersClientError::Status(code))) => (
                SignUpState::Finished,
                SignUpAction::Reply(Err(code)),
            ),
            _ => (SignUpState::Finished, SignUpAction::Reply(Err(internal))),
        },
        SignUpState::HashingPassword { user_id } => match event {
            SignUpEvent::PasswordHashed(Ok(password_hash)) => {
                let store = SignUpAction::StorePassword { user_id: user_id.duplicate(), password_hash };
                (SignUpState::StoringPassword { user_id }, store)
            },
            _ => (SignUpState::Finished, SignUpAction::Reply(Err(internal))),
        },
        SignUpState::StoringPassword { user_id } => match event {
            SignUpEvent::PasswordStored(Ok(_)) => (
                SignUpState::Finished,
                SignUpAction::Reply(Ok(user_id)),
            ),
            _ => (SignUpState::Finished, SignUpAction::Reply(Err(internal))),
        },
        SignUpState::Finished => (SignUpState::Finished, SignUpAction::Reply(Err(internal))),
    }
}

/// The answer of a whole sign-up, given the answers of the users service,
/// of the hashing and of the repository: the new user's identifier when all
/// three succeeded; the status that the users service refused with; 500 for
/// any other failure.
pub open spec fn sign_up_outcome<Id>(
    created: Result<CreateUserResponse<Id>, UsersClientError>,
    hashed: Result<String, ()>,
    stored: Result<(), ()>,
) -> Result<Id, StatusCode> {
    match created {
        Err(UsersClientError::Status(code)) => Err(code),
        Err(UsersClientError::Other) => Err(internal_error()),
        Ok(c) => match hashed {
            Err(_) => Err(internal_error()),
            Ok(_) => match stored {
                Err(_) => Err(internal_error()),
                Ok(_) => Ok(c.id),
            },
        },
    }
}

/// A whole sign-up answers with `sign_up_outcome` of the answers it got; the
/// password that it hashes is the one signed up with, and the hash that it
/// stores is the one computed, for the user that the users service created.
pub proof fn law_sign_up_run<Id>(
    password: String,
    created: Result<CreateUserResponse<Id>, UsersClientError>,
    hashed: Result<String, ()>,
    stored: Result<(), ()>,
    s1: SignUpState<Id>,
    a1: SignUpAction<Id>,
    s2: SignUpState<Id>,
    a2: SignUpAction<Id>,
    s3: SignUpState<Id>,
    a3: SignUpAction<Id>,
)
    requires
        sign_up_transition(
            (SignUpState::CreatingUser { password }),
            SignUpEvent::UserCreated(created),
            s1,
            a1,
        ),
        !(a1 is Reply) ==> sign_up_transition(s1, SignUpEvent::PasswordHashed(hashed), s2, a2),
        !(a1 is Reply) && !(a2 is Reply) ==> sign_up_transition(
            s2,
            SignUpEvent::PasswordStored(stored),
            s3,
            a3,
        ),
    ensures
        a1 is Reply ==> a1 == SignUpAction::Reply(sign_up_outcome(created, hashed, stored)),
        !(a1 is Reply) ==> a1 == (SignUpAction::<Id>::HashPassword { password }),
        !(a1 is Reply) && a2 is Reply ==> a2 == SignUpAction::Reply(
            sign_up_outcome(created, hashed, stored),
        ),
        !(a1 is Reply) && !(a2 is Reply) ==> (created matches Ok(c) && hashed matches Ok(h)
            && a2 == (SignUpAction::StorePassword { user_id: c.id, password_hash: h })),
        !(a1 is Reply) && !(a2 is Reply) ==> a3 == SignUpAction::Reply(
            sign_up_outcome(created, hashed, stored),
        ),
{
}

/// A refusal of the users service is passed on as it is: whatever status
/// `code` the service refused the user with, the sign-up finishes and
/// answers with `code`.
pub proof fn law_sign_up_passes_on_refusal<Id>(
    password: String,
    code: StatusCode,
    hashed: Result<String, ()>,
    stored: Result<(), ()>,
    next: SignUpState<Id>,
    action: SignUpAction<Id>,
)
    requires
        sign_up_transition(
            (SignUpState::CreatingUser { password }),
            SignUpEvent::UserCreated(Err(UsersClientError::Status(code))),
            next,
            action,
        ),
    ensures
        next is Finished,
        action matches SignUpAction::Reply(Err(c)) && c == code,
        sign_up_outcome::<Id>(Err(UsersClientError::Status(code)), hashed, stored) matches Err(c)
            && c == code,
{
}

/// A sign-up in which every service succeeds hashes the password it was
/// given, stores that hash for the id the users service handed out, and
/// answers with that id.
pub proof fn law_sign_up_success<Id>(
    password: String,
    id: Id,
    hash: String,
    s1: SignUpState<Id>,
    a1: SignUpAction<Id>,
    s2: SignUpState<Id>,
    a2: SignUpAction<Id>,
    s3: SignUpState<Id>,
    a3: SignUpAction<Id>,
)
    requires
        sign_up_transition(
            (SignUpState::CreatingUser { password }),
            SignUpEvent::UserCreated(Ok(CreateUserResponse { id })),
            s1,
            a1,
        ),
        sign_up_transition(s1, SignUpEvent::PasswordHashed(Ok(hash)), s2, a2),
        sign_up_transition(s2, SignUpEvent::PasswordStored(Ok(())), s3, a3),
    ensures
        a1 matches SignUpAction::HashPassword { password: p } && p == password,
        a2 matches SignUpAction::StorePassword { user_id, password_hash } && user_id == id
            && password_hash == hash,
        a3 matches SignUpAction::Reply(Ok(r)) && r == id,
        s3 is Finished,
        sign_up_outcome::<Id>(Ok(CreateUserResponse { id }), Ok(hash), Ok(())) matches Ok(r) && r
            == id,
{
}

/// Every other failure of a sign-up is answered 500: the users service
/// failing without a status, the hashing failing, or the repository failing
/// to store the hash.
pub proof fn law_sign_up_failures_are_internal<Id>(
    password: String,
    user_id: Id,
    n1: SignUpState<Id>,
    x1: SignUpAction<Id>,
    n2: SignUpState<Id>,
    x2: SignUpAction<Id>,
    n3: SignUpState<Id>,
    x3: SignUpAction<Id>,
)
    requires
        sign_up_transition(
            (SignUpState::CreatingUser { password }),
            SignUpEvent::UserCreated(Err(UsersClientError::Other)),
            n1,
            x1,
        ),
        sign_up_transition(
            (SignUpState::HashingPassword { user_id }),
            SignUpEvent::PasswordHashed(Err(())),
            n2,
            x2,
        ),
        sign_up_transition(
            (SignUpState::StoringPassword { user_id }),
            SignUpEvent::PasswordStored(Err(())),
            n3,
            x3,
        ),
    ensures
        n1 is Finished,
        x1 matches SignUpAction::Reply(Err(c)) && c.code == 500,
        n2 is Finished,
        x2 matches SignUpAction::Reply(Err(c)) && c.code == 500,
        n3 is Finished,
        x3 matches SignUpAction::Reply(Err(c)) && c.code == 500,
{
}

// ---------------------------------------------------------------------------
// Login
// ---------------------------------------------------------------------------

/// Where a login stands.
pub enum LoginState {
    /// Waiting for the repository to find the user by name.
    FindingUser { password: String },
    /// Waiting for the check of the password against the user's hash.
    CheckingPassword { user: User },
    /// Waiting for a token for the user.
    SigningToken,
    /// The login has answered.
    Finished,
}

/// What the caller reports back during a login.
pub enum LoginEvent {
    /// The repository's answer.
    UserFound(Result<Option<User>, QueryError>),
    /// Whether the password matches the hash, or the failure to check it.
    PasswordChecked(Result<bool, ()>),
    /// The signed token, or the failure to sign it.
    TokenSigned(Result<String, ()>),
}

/// What the caller is to do next during a login.
pub enum LoginAction {
    /// Look the user up by name.
    FindUser { username: String },
    /// Check the password against the stored hash.
    CheckPassword { password: String, password_hash: String },
    /// Sign a token for these claims.
    SignToken(ClaimsUser),
    /// Answer with the token, or with a status.
    Reply(Result<String, StatusCode>),
}

/// The event that each login state waits for.
pub open spec fn login_awaits(state: LoginState, event: LoginEvent) -> bool {
    match state {
        LoginState::FindingUser { .. } => event is UserFound,
        LoginState::CheckingPassword { .. } => event is PasswordChecked,
        LoginState::SigningToken => event is TokenSigned,
        LoginState::Finished => false,
    }
}

/// One step of a login.
pub open spec fn login_transition(
    state: LoginState,
    event: LoginEvent,
    next: LoginState,
    action: LoginAction,
) -> bool {
    match (state, event) {
        (LoginState::FindingUser { password }, LoginEvent::UserFound(r)) => match r {
            Err(_) => next is Finished && action == LoginAction::Reply(Err(internal_error())),
            Ok(None) => next is Finished && action == LoginAction::Reply(Err(unauthorized())),
            Ok(Some(user)) => next == LoginState::CheckingPassword { user } && (
            action matches LoginAction::CheckPassword { password: p, password_hash: h } && p
                == password && h@ == user.password_hash@),
        },
        (LoginState::CheckingPassword { user }, LoginEvent::PasswordChecked(r)) => match r {
            Err(_) => next is Finished && action == LoginAction::Reply(Err(internal_error())),
            Ok(false) => next is Finished && action == LoginAction::Reply(Err(unauthorized())),
            Ok(true) => next is SigningToken && action == LoginAction::SignToken(
                ClaimsUser { id: user.id, username: user.username },
            ),
        },
        (LoginState::SigningToken, LoginEvent::TokenSigned(r)) => next is Finished && match r {
            Ok(token) => action == LoginAction::Reply(Ok(token)),
            Err(_) => action == LoginAction::Reply(Err(internal_error())),
        },
        _ => false,
    }
}

/// Starts a login: the repository is asked for the user by name.
pub fn login_start(username: String, password: String) -> (out: (LoginState, LoginAction))
    ensures
        out.0 == (LoginState::FindingUser { password }),
        out.1 == (LoginAction::FindUser { username }),
{
    (LoginState::FindingUser { password }, LoginAction::FindUser { username })
}

/// Takes one step of a login.
pub fn login_step(state: LoginState, event: LoginEvent) -> (out: (LoginState, LoginAction))
    requires
        login_awaits(state, event),
    ensures
        login_transition(state, event, out.0, out.1),
{
    let internal = StatusCode { code: INTERNAL_SERVER_ERROR };
    let refused = StatusCode { code: UNAUTHORIZED };
    match state {
        LoginState::FindingUser { password } => match event {
            LoginEvent::UserFound(Ok(Some(user))) => {
                let check = LoginAction::CheckPassword {
                    password,
                    password_hash: user.password_hash.clone(),
                };
                (LoginState::CheckingPassword { user }, check)
            },
            LoginEvent::UserFound(Ok(None)) => (LoginState::Finished, LoginAction::Reply(Err(refused))),
            _ => (LoginState::Finished, LoginAction::Reply(Err(internal))),
        },
        LoginState::CheckingPassword { user } => match event {
            LoginEvent::PasswordChecked(Ok(true)) => (
                LoginState::SigningToken,
                LoginAction::SignToken(ClaimsUser::from(user)),
            ),
            LoginEvent::PasswordChecked(Ok(false)) => (
                LoginState::Finished,
                LoginAction::Reply(Err(refused)),
            ),
            _ => (LoginState::Finished, LoginAction::Reply(Err(internal))),
        },
        LoginState::SigningToken => match event {
            LoginEvent::TokenSigned(Ok(token)) => (LoginState::Finished, LoginAction::Reply(Ok(token))),
            _ => (LoginState::Finished, LoginAction::Reply(Err(internal))),
        },
        LoginState::Finished => (LoginState::Finished, LoginAction::Reply(Err(internal))),
    }
}

/// The answer of a whole login, given the answers of the repository, of
/// the password check and of the signing: the token when the user exists,
/// the password matches and signing succeeded; 401 alike for an unknown
/// user and for a wrong password; 500 for any failure of those services.
pub open spec fn login_outcome(
    found: Result<Option<User>, QueryError>,
    checked: Result<bool, ()>,
    signed: Result<String, ()>,
) -> Result<String, StatusCode> {
    match found {
        Err(_) => Err(internal_error()),
        Ok(None) => Err(unauthorized()),
        Ok(Some(_)) => match checked {
            Err(_) => Err(internal_error()),
            Ok(false) => Err(unauthorized()),
            Ok(true) => match signed {
                Err(_) => Err(internal_error()),
                Ok(token) => Ok(token),
            },
        },
    }
}

/// A whole login answers with `login_outcome` of the answers it got; the
/// password is checked against the hash of the user found by the name, and
/// a token is only asked for after that check succeeded, for that user.
pub proof fn law_login_run(
    password: String,
    found: Result<Option<User>, QueryError>,
    checked: Result<bool, ()>,
    signed: Result<String, ()>,
    s1: LoginState,
    a1: LoginAction,
    s2: LoginState,
    a2: LoginAction,
    s3: LoginState,
    a3: LoginAction,
)
    requires
        login_transition((LoginState::FindingUser { password }), LoginEvent::UserFound(found), s1, a1),
        !(a1 is Reply) ==> login_transition(s1, LoginEvent::PasswordChecked(checked), s2, a2),
        !(a1 is Reply) && !(a2 is Reply) ==> login_transition(
            s2,
            LoginEvent::TokenSigned(signed),
            s3,
            a3,
        ),
    ensures
        a1 is Reply ==> a1 == LoginAction::Reply(login_outcome(found, checked, signed)),
        !(a1 is Reply) ==> (found matches Ok(Some(u)) && (a1 matches (LoginAction::CheckPassword {
            password: p,
            password_hash: h,
        }) && p == password && h@ == u.password_hash@)),
        !(a1 is Reply) && a2 is Reply ==> a2 == LoginAction::Reply(
            login_outcome(found, checked, signed),
        ),
        !(a1 is Reply) && !(a2 is Reply) ==> (found matches Ok(Some(u)) && checked == Ok::<
            bool,
            (),
        >(true) && a2 == LoginAction::SignToken((ClaimsUser { id: u.id, username: u.username }))),
        !(a1 is Reply) && !(a2 is Reply) ==> a3 == LoginAction::Reply(
            login_outcome(found, checked, signed),
        ),
{
}

/// An unknown user and a wrong password get the same answer, so a caller
/// cannot tell which names exist.
pub proof fn law_login_refusal_hides_unknown_users(
    user: User,
    signed: Result<String, ()>,
    checked: Result<bool, ()>,
)
    ensures
        login_outcome(Ok(Some(user)), Ok(false), signed) == login_outcome(Ok(None), checked, signed),
        login_outcome(Ok(None), checked, signed) == Err::<String, StatusCode>(unauthorized()),
{
}


/// A login whose user exists, whose password check answers true and whose
/// signing gives `token` checks the given password against that user's
/// hash, signs a token for that user, and answers with exactly `token`.
pub proof fn law_login_success(
    password: String,
    user: User,
    token: String,
    s1: LoginState,
    a1: LoginAction,
    s2: LoginState,
    a2: LoginAction,
    s3: LoginState,
    a3: LoginAction,
)
    requires
        login_transition(
            (LoginState::FindingUser { password }),
            LoginEvent::UserFound(Ok(Some(user))),
            s1,
            a1,
        ),
        login_transition(s1, LoginEvent::PasswordChecked(Ok(true)), s2, a2),
        login_transition(s2, LoginEvent::TokenSigned(Ok(token)), s3, a3),
    ensures
        a1 matches LoginAction::CheckPassword { password: p, password_hash: h } && p == password
            && h@ == user.password_hash@,
        a2 matches LoginAction::SignToken(c) && c.id == user.id && c.username == user.username,
        a3 matches LoginAction::Reply(Ok(t)) && t == token,
        s3 is Finished,
        login_outcome(Ok(Some(user)), Ok(true), Ok(token)) matches Ok(t) && t == token,
{
}

/// Signing is the last step: whatever token it gives is the answer.
pub proof fn law_login_answers_signed_token(token: String, next: LoginState, action: LoginAction)
    requires
        login_transition(LoginState::SigningToken, LoginEvent::TokenSigned(Ok(token)), next, action),
    ensures
        next is Finished,
        action matches LoginAction::Reply(Ok(t)) && t == token,
{
}

/// An unknown user and a wrong password are both answered 401.
pub proof fn law_login_refusals_are_unauthorized(
    password: String,
    user: User,
    n1: LoginState,
    x1: LoginAction,
    n2: LoginState,
    x2: LoginAction,
)
    requires
        login_transition((LoginState::FindingUser { password }), LoginEvent::UserFound(Ok(None)), n1, x1),
        login_transition(
            (LoginState::CheckingPassword { user }),
            LoginEvent::PasswordChecked(Ok(false)),
            n2,
            x2,
        ),
    ensures
        n1 is Finished,
        x1 matches LoginAction::Reply(Err(c)) && c.code == 401,
        n2 is Finished,
        x2 matches LoginAction::Reply(Err(c)) && c.code == 401,
{
}

/// A failure of the repository, of the password check or of the signing is
/// answered 500.
pub proof fn law_login_failures_are_internal(
    password: String,
    e: QueryError,
    user: User,
    n1: LoginState,
    x1: LoginAction,
    n2: LoginState,
    x2: LoginAction,
    n3: LoginState,
    x3: LoginAction,
)
    requires
        login_transition((LoginState::FindingUser { password }), LoginEvent::UserFound(Err(e)), n1, x1),
        login_transition(
            (LoginState::CheckingPassword { user }),
            LoginEvent::PasswordChecked(Err(())),
            n2,
            x2,
        ),
        login_transition(LoginState::SigningToken, LoginEvent::TokenSigned(Err(())), n3, x3),
    ensures
        n1 is Finished,
        x1 matches LoginAction::Reply(Err(c)) && c.code == 500,
        n2 is Finished,
        x2 matches LoginAction::Reply(Err(c)) && c.code == 500,
        n3 is Finished,
        x3 matches LoginAction::Reply(Err(c)) && c.code == 500,
{
}

} // verus!
