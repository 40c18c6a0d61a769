use auth::client::request::VerifyTokenRequest;
use auth::client::response::VerifyTokenResponse;
use auth::client::Error;
use auth::host::repository::users::User;
use auth::wire::WireError;

fn user(id: &str, username: &str, password_hash: &str) -> User {
    User {
        id: id.to_string(),
        username: username.to_string(),
        password_hash: password_hash.to_string(),
    }
}

#[test]
fn user_encoding_round_trips() {
    let original = user("42", "alice", "$scrypt$ln=15,r=8,p=1$c2FsdA$aGFzaA");
    let bytes = original.encode_to_vec();
    let decoded = User::decode(&bytes).expect("decodes");
    assert_eq!(decoded.id, "42");
    assert_eq!(decoded.username, "alice");
    assert_eq!(decoded.password_hash, "$scrypt$ln=15,r=8,p=1$c2FsdA$aGFzaA");
}

#[test]
fn user_encoding_round_trips_non_ascii() {
    let original = user("7", "zoë-日本", "");
    let decoded = User::decode(&original.encode_to_vec()).expect("decodes");
    assert_eq!(decoded.id, "7");
    assert_eq!(decoded.username, "zoë-日本");
    assert_eq!(decoded.password_hash, "");
}

#[test]
fn user_encoding_bytes() {
    let bytes = user("1", "a", "").encode_to_vec();
    assert_eq!(bytes, vec![0x0a, 0x01, b'1', 0x12, 0x01, b'a']);
    let bytes = user("", "", "h").encode_to_vec();
    assert_eq!(bytes, vec![0x1a, 0x01, b'h']);
}

#[test]
fn user_with_long_field_uses_two_byte_length() {
    let hash = "x".repeat(200);
    let bytes = user("", "", &hash).encode_to_vec();
    assert_eq!(&bytes[..3], &[0x1a, 0xc8, 0x01]);
    assert_eq!(bytes.len(), 203);
    assert_eq!(User::decode(&bytes).unwrap().password_hash, hash);
}

#[test]
fn empty_user_encodes_to_nothing() {
    assert!(user("", "", "").encode_to_vec().is_empty());
    let decoded = User::decode(&[]).unwrap();
    assert_eq!(decoded.id, "");
    assert_eq!(decoded.username, "");
    assert_eq!(decoded.password_hash, "");
}

#[test]
fn user_decode_skips_unknown_fields() {
    let bytes = [0x20, 0x05, 0x0a, 0x01, b'9', 0x2a, 0x02, b'z', b'z', 0x12, 0x01, b'b'];
    let decoded = User::decode(&bytes).unwrap();
    assert_eq!(decoded.id, "9");
    assert_eq!(decoded.username, "b");
}

#[test]
fn user_decode_keeps_last_occurrence_of_a_field() {
    let bytes = [0x0a, 0x01, b'a', 0x0a, 0x01, b'b'];
    assert_eq!(User::decode(&bytes).unwrap().id, "b");
}

#[test]
fn user_decode_refuses_wrong_wire_type() {
    assert!(matches!(User::decode(&[0x08, 0x01]), Err(WireError::Malformed)));
}

#[test]
fn user_decode_refuses_truncated_field() {
    assert!(matches!(User::decode(&[0x0a, 0x05, b'a']), Err(WireError::Malformed)));
    assert!(matches!(User::decode(&[0x0a]), Err(WireError::Malformed)));
}

#[test]
fn user_decode_refuses_invalid_utf8() {
    assert!(matches!(User::decode(&[0x0a, 0x01, 0xff]), Err(WireError::Malformed)));
}

#[test]
fn user_decode_refuses_field_number_zero() {
    assert!(matches!(User::decode(&[0x02, 0x00]), Err(WireError::Malformed)));
}

#[test]
fn verify_token_request_bytes() {
    let request = VerifyTokenRequest { token: "abc".to_string() };
    assert_eq!(request.encode_to_vec(), vec![0x0a, 0x03, b'a', b'b', b'c']);
    let empty = VerifyTokenRequest { token: String::new() };
    assert!(empty.encode_to_vec().is_empty());
}

#[test]
fn verify_token_response_decodes_user_id() {
    assert_eq!(VerifyTokenResponse::decode(&[0x08, 0x96, 0x01]).unwrap().user_id, 150);
    assert_eq!(VerifyTokenResponse::decode(&[]).unwrap().user_id, 0);
}

#[test]
fn verify_token_response_decodes_negative_user_id() {
    let bytes = [0x08, 0xff, 0xff, 0xff, 0xff, 0xff, 0xff, 0xff, 0xff, 0xff, 0x01];
    assert_eq!(VerifyTokenResponse::decode(&bytes).unwrap().user_id, -1);
}

#[test]
fn verify_token_response_skips_unknown_fields() {
    let bytes = [0x12, 0x01, b'a', 0x08, 0x07, 0x1d, 1, 2, 3, 4];
    assert_eq!(VerifyTokenResponse::decode(&bytes).unwrap().user_id, 7);
}

#[test]
fn verify_token_response_refuses_malformed_input() {
    assert!(matches!(VerifyTokenResponse::decode(&[0x0a, 0x00]), Err(Error::Decode)));
    assert!(matches!(VerifyTokenResponse::decode(&[0x08]), Err(Error::Decode)));
    assert!(matches!(VerifyTokenResponse::decode(&[0x08, 0x80]), Err(Error::Decode)));
    assert!(matches!(VerifyTokenResponse::decode(&[0x0c]), Err(Error::Decode)));
}
