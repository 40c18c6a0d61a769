use auth::handlers::{
    login_start, login_step, sign_up_start, sign_up_step, CreateUserResponse, LoginAction,
    LoginEvent, LoginState, SignUpAction, SignUpEvent, SignUpState, UsersClientError,
};
use auth::host::repository::error::QueryError;
use auth::host::repository::users::User;
use auth::status::StatusCode;

fn run_sign_up(
    created: Result<CreateUserResponse<String>, UsersClientError>,
    hashed: Result<String, ()>,
    stored: Result<(), ()>,
) -> (Vec<String>, Result<String, StatusCode>) {
    let mut log = Vec::new();
    let (mut state, mut action): (SignUpState<String>, SignUpAction<String>) =
        sign_up_start("alice".to_string(), "secret".to_string());
    let mut created = Some(created);
    let mut hashed = Some(hashed);
    let mut stored = Some(stored);
    loop {
        let event = match action {
            SignUpAction::CreateUser(request) => {
                log.push(format!("create {}", request.username));
                SignUpEvent::UserCreated(created.take().unwrap())
            }
            SignUpAction::HashPassword { password } => {
                log.push(format!("hash {}", password));
                SignUpEvent::PasswordHashed(hashed.take().unwrap())
            }
            SignUpAction::StorePassword { user_id, password_hash } => {
                log.push(format!("store {} {}", user_id, password_hash));
                SignUpEvent::PasswordStored(stored.take().unwrap())
            }
            SignUpAction::Reply(reply) => return (log, reply),
        };
        let next = sign_up_step(state, event);
        state = next.0;
        action = next.1;
    }
}

#[test]
fn sign_up_creates_hashes_and_stores() {
    let (log, reply) = run_sign_up(
        Ok(CreateUserResponse { id: "u-1".to_string() }),
        Ok("h(secret)".to_string()),
        Ok(()),
    );
    assert_eq!(log, vec!["create alice", "hash secret", "store u-1 h(secret)"]);
    assert_eq!(reply, Ok("u-1".to_string()));
}

#[test]
fn sign_up_passes_on_the_users_service_status() {
    let (log, reply) = run_sign_up(
        Err(UsersClientError::Status(StatusCode { code: 409 })),
        Ok(String::new()),
        Ok(()),
    );
    assert_eq!(log, vec!["create alice"]);
    assert_eq!(reply, Err(StatusCode { code: 409 }));
}

#[test]
fn sign_up_failures_are_internal_errors() {
    let (_, reply) = run_sign_up(Err(UsersClientError::Other), Ok(String::new()), Ok(()));
    assert_eq!(reply, Err(StatusCode { code: 500 }));
    let (log, reply) =
        run_sign_up(Ok(CreateUserResponse { id: "u".to_string() }), Err(()), Ok(()));
    assert_eq!(log.len(), 2);
    assert_eq!(reply, Err(StatusCode { code: 500 }));
    let (_, reply) = run_sign_up(
        Ok(CreateUserResponse { id: "u".to_string() }),
        Ok("h".to_string()),
        Err(()),
    );
    assert_eq!(reply, Err(StatusCode { code: 500 }));
}

#[test]
fn sign_up_with_numeric_ids() {
    let (state, _): (SignUpState<i32>, SignUpAction<i32>) =
        sign_up_start("bob".to_string(), "pw".to_string());
    let (state, _) = sign_up_step(state, SignUpEvent::UserCreated(Ok(CreateUserResponse { id: 5 })));
    let (state, action) = sign_up_step(state, SignUpEvent::PasswordHashed(Ok("h".to_string())));
    assert!(matches!(action, SignUpAction::StorePassword { user_id: 5, .. }));
    let (_, action) = sign_up_step(state, SignUpEvent::PasswordStored(Ok(())));
    assert!(matches!(action, SignUpAction::Reply(Ok(5))));
}

fn alice() -> User {
    User {
        id: "1".to_string(),
        username: "alice".to_string(),
        password_hash: "stored-hash".to_string(),
    }
}

fn run_login(
    found: Result<Option<User>, QueryError>,
    checked: Result<bool, ()>,
    signed: Result<String, ()>,
) -> (Vec<String>, Result<String, StatusCode>) {
    let mut log = Vec::new();
    let (mut state, mut action): (LoginState, LoginAction) =
        login_start("alice".to_string(), "secret".to_string());
    let mut found = Some(found);
    let mut checked = Some(checked);
    let mut signed = Some(signed);
    loop {
        let event = match action {
            LoginAction::FindUser { username } => {
                log.push(format!("find {}", username));
                LoginEvent::UserFound(found.take().unwrap())
            }
            LoginAction::CheckPassword { password, password_hash } => {
                log.push(format!("check {} {}", password, password_hash));
                LoginEvent::PasswordChecked(checked.take().unwrap())
            }
            LoginAction::SignToken(claims) => {
                log.push(format!("sign {} {}", claims.id, claims.username));
                LoginEvent::TokenSigned(signed.take().unwrap())
            }
            LoginAction::Reply(reply) => return (log, reply),
        };
        let next = login_step(state, event);
        state = next.0;
        action = next.1;
    }
}

#[test]
fn login_issues_a_token_for_the_right_password() {
    let (log, reply) = run_login(Ok(Some(alice())), Ok(true), Ok("jwt".to_string()));
    assert_eq!(log, vec!["find alice", "check secret stored-hash", "sign 1 alice"]);
    assert_eq!(reply, Ok("jwt".to_string()));
}

#[test]
fn login_refuses_unknown_users_and_wrong_passwords_alike() {
    let (log, unknown) = run_login(Ok(None), Ok(true), Ok("jwt".to_string()));
    assert_eq!(log, vec!["find alice"]);
    let (log, wrong) = run_login(Ok(Some(alice())), Ok(false), Ok("jwt".to_string()));
    assert_eq!(log.len(), 2);
    assert_eq!(unknown, Err(StatusCode { code: 401 }));
    assert_eq!(unknown, wrong);
}

#[test]
fn login_failures_are_internal_errors() {
    let (_, reply) = run_login(Err(QueryError::Connection), Ok(true), Ok(String::new()));
    assert_eq!(reply, Err(StatusCode { code: 500 }));
    let (_, reply) = run_login(Ok(Some(alice())), Err(()), Ok(String::new()));
    assert_eq!(reply, Err(StatusCode { code: 500 }));
    let (_, reply) = run_login(Ok(Some(alice())), Ok(true), Err(()));
    assert_eq!(reply, Err(StatusCode { code: 500 }));
}
