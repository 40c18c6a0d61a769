//! The service's answer to a token check.

use super::Error;
use crate::wire::{int32_field, law_small_field_keys, prost_int32, prost_key, prost_skip, take_int32, take_key, skip_value, varint, WireKind};
use vstd::prelude::*;

verus! {

/// The user that a valid token speaks for. On the wire it is a message with
/// the `int32` field `user_id` (1).
pub struct VerifyTokenResponse {
    pub user_id: i32,
}

/// The encoding of an answer for `user_id`: the field is absent when it is 0.
pub open spec fn verify_token_response_bytes(user_id: i32) -> Seq<u8> {
    if user_id == 0 {
        Seq::empty()
    } else {
        int32_field(1, user_id)
    }
}

/// The layout of an answer: nothing for user id 0; otherwise the key `0x08`
/// (field 1, varint) and the user id sign-extended to 64 bits as a varint.
pub proof fn law_verify_token_response_layout(user_id: i32)
    ensures
        user_id == 0 ==> verify_token_response_bytes(user_id) == Seq::<u8>::empty(),
        user_id != 0 ==> verify_token_response_bytes(user_id) == seq![8u8] + varint(user_id as u64),
{
    law_small_field_keys();
}

/// Decoding of an answer from `input`, the user id read so far being
/// `acc`: field 1 as a varint replaces it, field 1 with another wire type is
/// refused, unknown fields are skipped.
pub open spec fn decode_response_fields(input: Seq<u8>, acc: i32) -> Option<i32>
    decreases input.len(),
{
    if input.len() == 0 {
        Some(acc)
    } else {
        match prost_key(input) {
            None => None,
            Some((tag, code, rest)) => {
                if tag == 1 {
                    if code != 0 {
                        None
                    } else {
                        match prost_int32(rest) {
                            None => None,
                            Some((v, after)) => {
                                if after.len() < input.len() {
                                    decode_response_fields(after, v)
                                } else {
                                    None
                                }
                            },
                        }
                    }
                } else {
                    match prost_skip(code, tag, rest) {
                        None => None,
                        Some(after) => {
                            if after.len() < input.len() {
                                decode_response_fields(after, acc)
                            } else {
                                None
                            }
                        },
                    }
                }
            },
        }
    }
}

/// What decoding `bytes` as an answer gives: the user id.
pub open spec fn decoded_response(bytes: Seq<u8>) -> Option<i32> {
    decode_response_fields(bytes, 0)
}

impl VerifyTokenResponse {
    /// Decodes an answer.
    ///
    /// The result is what `decoded_response` gives; in particular the
    /// encoding of an answer for a user id decodes to that user id.
    pub fn decode(bytes: &[u8]) -> (res: Result<VerifyTokenResponse, Error>)
        ensures
            match res {
                Ok(r) => decoded_response(bytes@) == Some(r.user_id),
                Err(e) => decoded_response(bytes@) is None && e == Error::Decode,
            },
            forall|t: i32| #[trigger] verify_token_response_bytes(t) == bytes@ ==> match res {
                Ok(r) => r.user_id == t,
                Err(_) => false,
            },
    {
        let mut user_id: i32 = 0;
        let mut input: &[u8] = bytes;
        while input.len() > 0
            invariant
                decoded_response(bytes@) == decode_response_fields(input@, user_id),
                forall|t: i32| #[trigger]
                    verify_token_response_bytes(t) == bytes@ ==> (input@ == bytes@ && user_id == 0
                        && t != 0) || (input@.len() == 0 && user_id == t),
            decreases input.len(),
        {
            let ghost before = input@;
            let (tag, kind, rest) = match take_key(input) {
                Ok(k) => k,
                Err(_) => {
                    proof {
                        assert forall|t: i32| #[trigger]
                            verify_token_response_bytes(t) == bytes@ implies false by {
                            assert(before =~= varint(8) + varint(t as u64));
                        }
                    }
                    return Err(Error::Decode);
                },
            };
            if tag == 1 {
                let is_varint = match kind {
                    WireKind::Varint => true,
                    _ => false,
                };
                if !is_varint {
                    proof {
                        assert forall|t: i32| #[trigger]
                            verify_token_response_bytes(t) == bytes@ implies false by {
                            assert(before =~= varint(8) + varint(t as u64));
                        }
                    }
                    return Err(Error::Decode);
                }
                let (v, after) = match take_int32(rest) {
                    Ok(r) => r,
                    Err(_) => {
                        proof {
                            assert forall|t: i32| #[trigger]
                                verify_token_response_bytes(t) == bytes@ implies false by {
                                assert(before =~= varint(8) + varint(t as u64));
                                assert(rest@ =~= varint(t as u64) + Seq::<u8>::empty());
                            }
                        }
                        return Err(Error::Decode);
                    },
                };
                proof {
                    assert forall|t: i32| #[trigger]
                        verify_token_response_bytes(t) == bytes@ implies after@.len() == 0 && v
                        == t by {
                        assert(before =~= varint(8) + varint(t as u64));
                        assert(rest@ =~= varint(t as u64) + Seq::<u8>::empty());
                        assert(((t as u64) as i32) == t) by (bit_vector);
                    }
                }
                user_id = v;
                input = after;
            } else {
                let after = match skip_value(kind, tag, rest) {
                    Ok(r) => r,
                    Err(_) => {
                        proof {
                            assert forall|t: i32| #[trigger]
                                verify_token_response_bytes(t) == bytes@ implies false by {
                                assert(before =~= varint(8) + varint(t as u64));
                            }
                        }
                        return Err(Error::Decode);
                    },
                };
                proof {
                    assert forall|t: i32| #[trigger]
                        verify_token_response_bytes(t) == bytes@ implies false by {
                        assert(before =~= varint(8) + varint(t as u64));
                    }
                }
                input = after;
            }
        }
        Ok(VerifyTokenResponse { user_id })
    }
}

} // verus!
