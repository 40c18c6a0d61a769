use auth::handlers::{CreateUserRequest, LoginAction, LoginState, SignUpAction, SignUpState};
use auth::host::jwt::ClaimsUser;
use auth::status::StatusCode;
use auth::web::request::{LoginRequest, SignUpRequest};

#[test]
fn web_sign_up_starts_by_creating_the_user() {
    let request = SignUpRequest { username: "alice".to_string(), password: "pw".to_string() };
    let (state, action) = auth::web::routes::start_sign_up(request);
    assert!(matches!(state, SignUpState::CreatingUser { ref password } if password == "pw"));
    assert!(matches!(action, SignUpAction::CreateUser(CreateUserRequest { ref username }) if username == "alice"));
}

#[test]
fn web_replies_wrap_the_decision() {
    let r = auth::web::routes::sign_up_reply(Ok("u-1".to_string())).ok().unwrap();
    assert_eq!(r.id, "u-1");
    let e = auth::web::routes::sign_up_reply(Err(StatusCode { code: 409 })).err();
    assert_eq!(e, Some(StatusCode { code: 409 }));
    let r = auth::web::routes::login_reply(Ok("jwt".to_string())).ok().unwrap();
    assert_eq!(r.token, "jwt");
    let e = auth::web::routes::login_reply(Err(StatusCode { code: 401 })).err();
    assert_eq!(e, Some(StatusCode { code: 401 }));
}

#[test]
fn web_login_starts_by_finding_the_user() {
    let request = LoginRequest { username: "alice".to_string(), password: "pw".to_string() };
    let (state, action) = auth::web::routes::start_login(request);
    assert!(matches!(state, LoginState::FindingUser { ref password } if password == "pw"));
    assert!(matches!(action, LoginAction::FindUser { ref username } if username == "alice"));
}

#[test]
fn web_token_check_answers_the_user_id() {
    let claims = ClaimsUser { id: "u-1".to_string(), username: "alice".to_string() };
    let r = auth::web::routes::verify_token_reply(Ok(claims)).ok().unwrap();
    assert_eq!(r.user_id, "u-1");
    let e = auth::web::routes::verify_token_reply(Err(())).err();
    assert_eq!(e, Some(StatusCode { code: 401 }));
}

#[test]
fn json_front_end_uses_numeric_ids() {
    let request = SignUpRequest { username: "bob".to_string(), password: "pw".to_string() };
    let (_, action) = auth::host::web::routes::start_sign_up(request);
    assert!(matches!(action, SignUpAction::CreateUser(_)));
    let r = auth::host::web::routes::sign_up_reply(Ok(5)).ok().unwrap();
    assert_eq!(r.id, 5);
    let request = LoginRequest { username: "bob".to_string(), password: "pw".to_string() };
    let (_, action) = auth::host::web::routes::start_login(request);
    assert!(matches!(action, LoginAction::FindUser { .. }));
    let r = auth::host::web::routes::login_reply(Ok("t".to_string())).ok().unwrap();
    assert_eq!(r.token, "t");
    let r = auth::host::web::routes::verify_token_reply(Ok(9)).ok().unwrap();
    assert_eq!(r.user_id, 9);
    let e = auth::host::web::routes::verify_token_reply(Err(())).err();
    assert_eq!(e, Some(StatusCode { code: 401 }));
}

#[test]
fn claims_of_a_user_carry_its_id_and_name() {
    let user = auth::host::repository::users::User {
        id: "1".to_string(),
        username: "alice".to_string(),
        password_hash: "h".to_string(),
    };
    let claims = ClaimsUser::from(user);
    assert_eq!(claims.id, "1");
    assert_eq!(claims.username, "alice");
}
