//! The Protocol Buffers wire format of the service's messages.
//!
//! The field-level encoding and decoding steps are those of the `prost`
//! crate; this module states what each step produces and builds the
//! message-level encoders and decoders on top of them.

use prost::encoding::{DecodeContext, WireType};
use vstd::prelude::*;
use vstd::utf8::*;

verus! {

/// The largest field number that Protocol Buffers allows.
pub const MAX_TAG: u32 = 536870911;

/// LEB128 variable-length encoding of an unsigned integer: seven bits per
/// byte, least significant group first, the high bit set on every byte but
/// the last.
pub open spec fn varint(v: u64) -> Seq<u8>
    decreases v,
{
    if v < 128 {
        seq![v as u8]
    } else {
        seq![((v % 128) + 128) as u8] + varint(v / 128)
    }
}

/// The wire type carried in the low three bits of a field key.
#[derive(Clone, Copy, Debug, PartialEq, Eq, Structural)]
pub enum WireKind {
    Varint,
    SixtyFourBit,
    LengthDelimited,
    StartGroup,
    EndGroup,
    ThirtyTwoBit,
}

impl WireKind {
    /// The number that the wire type has on the wire.
    pub open spec fn code(self) -> u8 {
        match self {
            WireKind::Varint => 0,
            WireKind::SixtyFourBit => 1,
            WireKind::LengthDelimited => 2,
            WireKind::StartGroup => 3,
            WireKind::EndGroup => 4,
            WireKind::ThirtyTwoBit => 5,
        }
    }
}

/// The key that opens field `tag` with wire type `code`.
pub open spec fn field_key(tag: u32, code: u8) -> Seq<u8> {
    varint((tag * 8 + code) as u64)
}

/// A string field: key, byte length, UTF-8 bytes.
pub open spec fn string_field(tag: u32, s: Seq<char>) -> Seq<u8> {
    field_key(tag, 2) + varint(encode_utf8(s).len() as u64) + encode_utf8(s)
}

/// A string field as a message carries it: absent when the string is empty.
pub open spec fn optional_string_field(tag: u32, s: Seq<char>) -> Seq<u8> {
    if s.len() == 0 {
        Seq::empty()
    } else {
        string_field(tag, s)
    }
}

/// An `int32` field: key, then the value sign-extended to 64 bits as a varint.
pub open spec fn int32_field(tag: u32, v: i32) -> Seq<u8> {
    field_key(tag, 0) + varint(v as u64)
}

/// A string that fits in a message field.
pub open spec fn encodable_string(s: Seq<char>) -> bool {
    encode_utf8(s).len() <= u64::MAX
}

/// `rest` is what is left of `input` after a step consumed at least one byte.
pub open spec fn consumed_some(input: Seq<u8>, rest: Seq<u8>) -> bool {
    &&& rest.len() < input.len()
    &&& rest == input.subrange(input.len() - rest.len(), input.len() as int)
}

/// A varint below 128 is the single byte of its value; one below 16384 is
/// two bytes: the low seven bits with the high bit set, then the rest.
pub proof fn law_varint_short(v: u64)
    ensures
        v < 128 ==> varint(v) == seq![v as u8],
        128 <= v < 16384 ==> varint(v) == seq![((v % 128) + 128) as u8, (v / 128) as u8],
{
    reveal_with_fuel(varint, 2);
    if 128 <= v < 16384 {
        assert(varint(v / 128) == seq![(v / 128) as u8]);
        assert(varint(v) =~= seq![((v % 128) + 128) as u8, (v / 128) as u8]);
    }
}

/// The key of string field 1 is the single byte `0x0a`.
pub proof fn law_first_string_key()
    ensures
        field_key(1, 2) == seq![10u8],
{
    law_varint_short(10);
}

/// The keys of the small fields that the service's messages use: string
/// fields 1, 2 and 3 are `0x0a`, `0x12` and `0x1a`; varint field 1 is `0x08`.
pub proof fn law_small_field_keys()
    ensures
        field_key(1, 2) == seq![10u8],
        field_key(2, 2) == seq![18u8],
        field_key(3, 2) == seq![26u8],
        field_key(1, 0) == seq![8u8],
{
    law_varint_short(10);
    law_varint_short(18);
    law_varint_short(26);
    law_varint_short(8);
}

/// Why a message could not be decoded.
#[derive(Clone, Copy, Debug, PartialEq, Eq, Structural)]
pub enum WireError {
    /// A field key, a field value or a skipped field is malformed, or a
    /// known field arrived with a wire type other than its own.
    Malformed,
}

#[verifier::external_type_specification]
#[verifier::external_body]
pub struct ExDecodeError(prost::DecodeError);

/// What `prost::encoding::decode_key` reads at the start of `input`: the
/// field number, the wire type code and the rest of the input.
pub uninterp spec fn prost_key(input: Seq<u8>) -> Option<(u32, u8, Seq<u8>)>;

/// What `prost::encoding::string::merge` reads at the start of `input`: the
/// string and the rest of the input.
pub uninterp spec fn prost_string(input: Seq<u8>) -> Option<(Seq<char>, Seq<u8>)>;

/// What `prost::encoding::int32::merge` reads at the start of `input`: the
/// value and the rest of the input.
pub uninterp spec fn prost_int32(input: Seq<u8>) -> Option<(i32, Seq<u8>)>;

/// What is left of `input` after `prost::encoding::skip_field` skipped a
/// field with the given wire type code and number.
pub uninterp spec fn prost_skip(code: u8, tag: u32, input: Seq<u8>) -> Option<Seq<u8>>;

/// Appends a string field to `buf` with `prost::encoding::string::encode`,
/// which writes the key, the byte length as a varint and the UTF-8 bytes.
#[verifier::external_body]
pub(crate) fn put_string_field(tag: u32, value: &String, buf: &mut Vec<u8>)
    requires
        1 <= tag <= MAX_TAG,
    ensures
        final(buf)@ == old(buf)@ + string_field(tag, value@),
{
    prost::encoding::string::encode(tag, value, buf)
}

/// Reads a field key with `prost::encoding::decode_key`.
///
/// Stated: the result is the one named by `prost_key`; a success consumes at
/// least one byte; a key written as the varint of `tag * 8 + code`, with a
/// field number of at least one that fits in 32 bits and a code of at most
/// five, is read back. Left unsaid: which malformed keys are refused.
#[verifier::external_body]
pub(crate) fn take_key(input: &[u8]) -> (res: Result<(u32, WireKind, &[u8]), prost::DecodeError>)
    ensures
        res is Ok <==> prost_key(input@) is Some,
        res matches Ok((tag, kind, rest)) ==> prost_key(input@) == Some((tag, kind.code(), rest@))
            && consumed_some(input@, rest@),
        forall|k: u64, tail: Seq<u8>|
            #![trigger varint(k) + tail]
            input@ == varint(k) + tail && k <= u32::MAX && k % 8 <= 5 && k / 8 >= 1 ==> match res {
                Ok((tag, kind, rest)) => tag == k / 8 && kind.code() == k % 8 && rest@ == tail,
                Err(_) => false,
            },
{
    let mut rest = input;
    match prost::encoding::decode_key(&mut rest) {
        Ok((tag, WireType::Varint)) => Ok((tag, WireKind::Varint, rest)),
        Ok((tag, WireType::SixtyFourBit)) => Ok((tag, WireKind::SixtyFourBit, rest)),
        Ok((tag, WireType::LengthDelimited)) => Ok((tag, WireKind::LengthDelimited, rest)),
        Ok((tag, WireType::StartGroup)) => Ok((tag, WireKind::StartGroup, rest)),
        Ok((tag, WireType::EndGroup)) => Ok((tag, WireKind::EndGroup, rest)),
        Ok((tag, WireType::ThirtyTwoBit)) => Ok((tag, WireKind::ThirtyTwoBit, rest)),
        Err(e) => Err(e),
    }
}

/// Reads the value of a length-delimited string field (the part after the
/// key) with `prost::encoding::string::merge`.
///
/// Stated: the result is the one named by `prost_string`; a success consumes
/// at least one byte; a varint length `n` followed by `n` bytes is read as
/// the string those bytes encode when they are valid UTF-8, and refused when
/// they are not. Left unsaid: which other malformed inputs are refused.
#[verifier::external_body]
pub(crate) fn take_string(input: &[u8]) -> (res: Result<(String, &[u8]), prost::DecodeError>)
    ensures
        res is Ok <==> prost_string(input@) is Some,
        res matches Ok((s, rest)) ==> prost_string(input@) == Some((s@, rest@)) && consumed_some(
            input@,
            rest@,
        ),
        forall|n: u64, body: Seq<u8>, tail: Seq<u8>|
            #![trigger varint(n) + body + tail]
            input@ == varint(n) + body + tail && body.len() == n ==> (if valid_utf8(body) {
                res matches Ok((s, rest)) && s@ == decode_utf8(body) && rest@ == tail
            } else {
                res is Err
            }),
{
    let mut rest = input;
    let mut value = String::new();
    let ctx = DecodeContext::default();
    match prost::encoding::string::merge(WireType::LengthDelimited, &mut value, &mut rest, ctx) {
        Ok(()) => Ok((value, rest)),
        Err(e) => Err(e),
    }
}

/// Reads the value of a varint `int32` field (the part after the key) with
/// `prost::encoding::int32::merge`.
///
/// Stated: the result is the one named by `prost_int32`; a success consumes
/// at least one byte; a varint is read as its value truncated to 32 bits.
/// Left unsaid: which malformed varints are refused.
#[verifier::external_body]
pub(crate) fn take_int32(input: &[u8]) -> (res: Result<(i32, &[u8]), prost::DecodeError>)
    ensures
        res is Ok <==> prost_int32(input@) is Some,
        res matches Ok((v, rest)) ==> prost_int32(input@) == Some((v, rest@)) && consumed_some(
            input@,
            rest@,
        ),
        forall|v: u64, tail: Seq<u8>|
            #![trigger varint(v) + tail]
            input@ == varint(v) + tail ==> match res {
                Ok((x, rest)) => x == v as i32 && rest@ == tail,
                Err(_) => false,
            },
{
    let mut rest = input;
    let mut value: i32 = 0;
    let ctx = DecodeContext::default();
    match prost::encoding::int32::merge(WireType::Varint, &mut value, &mut rest, ctx) {
        Ok(()) => Ok((value, rest)),
        Err(e) => Err(e),
    }
}

/// Skips the value of a field that the message does not know, with
/// `prost::encoding::skip_field`.
///
/// Stated: the result is the one named by `prost_skip`; a success consumes
/// at least one byte. Left unsaid: how each wire type is skipped.
#[verifier::external_body]
pub(crate) fn skip_value(kind: WireKind, tag: u32, input: &[u8]) -> (res: Result<&[u8], prost::DecodeError>)
    ensures
        res is Ok <==> prost_skip(kind.code(), tag, input@) is Some,
        res matches Ok(rest) ==> prost_skip(kind.code(), tag, input@) == Some(rest@)
            && consumed_some(input@, rest@),
{
    let wire_type = match kind {
        WireKind::Varint => WireType::Varint,
        WireKind::SixtyFourBit => WireType::SixtyFourBit,
        WireKind::LengthDelimited => WireType::LengthDelimited,
        WireKind::StartGroup => WireType::StartGroup,
        WireKind::EndGroup => WireType::EndGroup,
        WireKind::ThirtyTwoBit => WireType::ThirtyTwoBit,
    };
    let mut rest = input;
    match prost::encoding::skip_field(wire_type, tag, &mut rest, DecodeContext::default()) {
        Ok(()) => Ok(rest),
        Err(e) => Err(e),
    }
}

/// Appends the field to `buf` unless the string is empty, as a message does
/// for a string field that holds the default value.
pub fn put_optional_string_field(tag: u32, value: &String, buf: &mut Vec<u8>)
    requires
        1 <= tag <= MAX_TAG,
    ensures
        final(buf)@ == old(buf)@ + optional_string_field(tag, value@),
{
    if !value.as_str().is_empty() {
        put_string_field(tag, value, buf);
    } else {
        assert(old(buf)@ + optional_string_field(tag, value@) =~= old(buf)@);
    }
}

} // verus!
