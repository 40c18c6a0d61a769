//! The message that asks the service to check a token.

use crate::wire::{
    encodable_string, law_first_string_key, law_varint_short, optional_string_field,
    put_optional_string_field, varint,
};
use vstd::prelude::*;
use vstd::utf8::*;

verus! {

/// Asks the service whether `token` is valid. On the wire it is a message
/// with the string field `token` (1).
pub struct VerifyTokenRequest {
    pub token: String,
}

/// The encoding of a request for `token`.
pub open spec fn verify_token_request_bytes(token: Seq<char>) -> Seq<u8> {
    optional_string_field(1, token)
}

/// The request for an empty token is empty; any other request is the key
/// `0x0a` (field 1, length-delimited), the UTF-8 length of the token as a
/// varint, and the token's UTF-8 bytes. Lengths below 128 take one byte,
/// lengths from 128 below 16384 take two.
pub proof fn law_verify_token_request_layout(token: Seq<char>)
    requires
        encodable_string(token),
    ensures
        token.len() == 0 ==> verify_token_request_bytes(token) == Seq::<u8>::empty(),
        token.len() > 0 ==> verify_token_request_bytes(token) == seq![10u8] + varint(
            encode_utf8(token).len() as u64,
        ) + encode_utf8(token),
        token.len() > 0 && encode_utf8(token).len() < 128 ==> verify_token_request_bytes(token)
            == seq![10u8, encode_utf8(token).len() as u8] + encode_utf8(token),
        token.len() > 0 && 128 <= encode_utf8(token).len() < 16384 ==> verify_token_request_bytes(
            token,
        ) == seq![
            10u8,
            ((encode_utf8(token).len() % 128) + 128) as u8,
            (encode_utf8(token).len() / 128) as u8,
        ] + encode_utf8(token),
{
    law_first_string_key();
    let n = encode_utf8(token).len() as u64;
    law_varint_short(n);
    if token.len() > 0 {
        if n < 128 {
            assert(seq![10u8] + varint(n) =~= seq![10u8, encode_utf8(token).len() as u8]);
        } else if n < 16384 {
            assert(seq![10u8] + varint(n) =~= seq![
                10u8,
                ((encode_utf8(token).len() % 128) + 128) as u8,
                (encode_utf8(token).len() / 128) as u8,
            ]);
        }
    }
}

impl VerifyTokenRequest {
    /// Encodes the request as a message.
    pub fn encode_to_vec(&self) -> (bytes: Vec<u8>)
        ensures
            bytes@ == verify_token_request_bytes(self.token@),
    {
        let mut buf: Vec<u8> = Vec::new();
        put_optional_string_field(1, &self.token, &mut buf);
        assert(buf@ =~= verify_token_request_bytes(self.token@));
        buf
    }
}

} // verus!
