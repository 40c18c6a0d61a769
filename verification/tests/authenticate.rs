use auth::client::axum::extractors::authenticate::{parse_authorization, Authenticate, ClaimsUser};
use auth::client::response::VerifyTokenResponse;
use auth::client::Error;
use auth::status::StatusCode;

fn token(header: &[u8]) -> Result<String, u16> {
    parse_authorization(Some(header)).map(|r| r.token).map_err(|s| s.code)
}

#[test]
fn missing_header_is_unauthorized() {
    assert_eq!(parse_authorization(None).err(), Some(StatusCode { code: 401 }));
}

#[test]
fn bearer_token_is_read() {
    assert_eq!(token(b"Bearer abc.def.ghi"), Ok("abc.def.ghi".to_string()));
}

#[test]
fn scheme_is_case_insensitive() {
    assert_eq!(token(b"bearer abc"), Ok("abc".to_string()));
    assert_eq!(token(b"BEARER abc"), Ok("abc".to_string()));
    assert_eq!(token(b"BeArEr abc"), Ok("abc".to_string()));
}

#[test]
fn token_is_everything_after_the_first_space() {
    assert_eq!(token(b"Bearer a b"), Ok("a b".to_string()));
    assert_eq!(token(b"Bearer  a"), Ok(" a".to_string()));
    assert_eq!(token(b"Bearer "), Ok(String::new()));
}

#[test]
fn other_schemes_are_bad_requests() {
    assert_eq!(token(b"Basic dXNlcjpwYXNz"), Err(400));
    assert_eq!(token(b"Token abc"), Err(400));
    assert_eq!(token(b"Bearers abc"), Err(400));
    assert_eq!(token(b" Bearer abc"), Err(400));
}

#[test]
fn header_without_space_is_a_bad_request() {
    assert_eq!(token(b"Bearerabc"), Err(400));
    assert_eq!(token(b"Bearer\tabc"), Err(400));
    assert_eq!(token(b""), Err(400));
}

#[test]
fn header_that_is_not_text_is_unauthorized() {
    assert_eq!(token(b"Bearer \x01abc"), Err(401));
    assert_eq!(token(b"Bearer ab\x7f"), Err(401));
    assert_eq!(token(&[0x42, 0x20, 0xc3, 0xa9]), Err(401));
}

#[test]
fn checked_token_names_the_user() {
    let ok = Authenticate::from_verification(Ok(VerifyTokenResponse { user_id: 17 }));
    assert_eq!(ok, Ok(Authenticate(ClaimsUser { id: 17 })));
    let user = ok.unwrap();
    assert_eq!(user.id, 17);
}

#[test]
fn failed_check_is_an_internal_error() {
    assert_eq!(
        Authenticate::from_verification(Err(Error::Http)),
        Err(StatusCode { code: 500 })
    );
    assert_eq!(
        Authenticate::from_verification(Err(Error::Decode)),
        Err(StatusCode { code: 500 })
    );
}
