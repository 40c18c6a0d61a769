//! The users that the service authenticates, and their wire encoding.

pub mod cache;

use crate::host::jwt::ClaimsUser;
use crate::wire::{
    encodable_string, law_small_field_keys, optional_string_field, prost_key, prost_skip, prost_string, put_optional_string_field,
    skip_value, string_field, take_key, take_string, varint, WireError, WireKind,
};
use vstd::prelude::*;
use vstd::utf8::*;

verus! {

broadcast use {encode_utf8_valid_utf8, encode_utf8_decode_utf8};

/// A user as the repository stores it. On the wire it is a message with the
/// string fields `id` (1), `username` (2) and `password_hash` (3).
pub struct User {
    pub id: String,
    pub username: String,
    pub password_hash: String,
}

/// A user as plain values.
#[verifier::ext_equal]
pub struct UserView {
    pub id: Seq<char>,
    pub username: Seq<char>,
    pub password_hash: Seq<char>,
}

impl View for User {
    type V = UserView;

    open spec fn view(&self) -> UserView {
        UserView { id: self.id@, username: self.username@, password_hash: self.password_hash@ }
    }
}

impl UserView {
    /// The user whose fields are all empty, which is what decoding starts from.
    pub open spec fn empty() -> UserView {
        UserView { id: Seq::empty(), username: Seq::empty(), password_hash: Seq::empty() }
    }

    /// Every field fits in a message.
    pub open spec fn encodable(self) -> bool {
        &&& encodable_string(self.id)
        &&& encodable_string(self.username)
        &&& encodable_string(self.password_hash)
    }

    /// The field with the given number.
    pub open spec fn field(self, tag: int) -> Seq<char> {
        if tag == 1 {
            self.id
        } else if tag == 2 {
            self.username
        } else {
            self.password_hash
        }
    }

    /// The user with the field of the given number replaced.
    pub open spec fn with_field(self, tag: int, s: Seq<char>) -> UserView {
        if tag == 1 {
            UserView { id: s, ..self }
        } else if tag == 2 {
            UserView { username: s, ..self }
        } else {
            UserView { password_hash: s, ..self }
        }
    }

    /// The user with the fields numbered above `upto` emptied.
    pub open spec fn prefix(self, upto: int) -> UserView {
        UserView {
            id: if upto >= 1 { self.id } else { Seq::empty() },
            username: if upto >= 2 { self.username } else { Seq::empty() },
            password_hash: if upto >= 3 { self.password_hash } else { Seq::empty() },
        }
    }
}

/// The encoding of a user: its non-empty fields in field order.
pub open spec fn user_bytes(u: UserView) -> Seq<u8> {
    optional_string_field(1, u.id) + optional_string_field(2, u.username) + optional_string_field(
        3,
        u.password_hash,
    )
}

/// The layout of a user's encoding: `id` under key `0x0a`, `username` under
/// `0x12`, `password_hash` under `0x1a`, each as its UTF-8 length as a
/// varint and its UTF-8 bytes, in that order; an empty field is left out.
pub proof fn law_user_layout(u: UserView)
    ensures
        user_bytes(u) == (if u.id.len() == 0 {
            Seq::<u8>::empty()
        } else {
            seq![10u8] + varint(encode_utf8(u.id).len() as u64) + encode_utf8(u.id)
        }) + (if u.username.len() == 0 {
            Seq::<u8>::empty()
        } else {
            seq![18u8] + varint(encode_utf8(u.username).len() as u64) + encode_utf8(u.username)
        }) + (if u.password_hash.len() == 0 {
            Seq::<u8>::empty()
        } else {
            seq![26u8] + varint(encode_utf8(u.password_hash).len() as u64) + encode_utf8(
                u.password_hash,
            )
        }),
{
    law_small_field_keys();
}

/// The encoding of the fields numbered above `from`.
pub open spec fn user_suffix(u: UserView, from: int) -> Seq<u8>
    decreases 3 - from,
{
    if from >= 3 {
        Seq::empty()
    } else {
        optional_string_field((from + 1) as u32, u.field(from + 1)) + user_suffix(u, from + 1)
    }
}

/// Decoding of a user message from `input`, the fields read so far being
/// `acc`: string fields 1 to 3 replace the field, a known field with another
/// wire type is refused, unknown fields are skipped.
pub open spec fn decode_user_fields(input: Seq<u8>, acc: UserView) -> Option<UserView>
    decreases input.len(),
{
    if input.len() == 0 {
        Some(acc)
    } else {
        match prost_key(input) {
            None => None,
            Some((tag, code, rest)) => {
                if 1 <= tag <= 3 {
                    if code != 2 {
                        None
                    } else {
                        match prost_string(rest) {
                            None => None,
                            Some((s, after)) => {
                                if after.len() < input.len() {
                                    decode_user_fields(after, acc.with_field(tag as int, s))
                                } else {
                                    None
                                }
                            },
                        }
                    }
                } else {
                    match prost_skip(code, tag, rest) {
                        None => None,
                        Some(after) => {
                            if after.len() < input.len() {
                                decode_user_fields(after, acc)
                            } else {
                                None
                            }
                        },
                    }
                }
            },
        }
    }
}

/// What decoding `bytes` as a user message gives.
pub open spec fn decoded_user(bytes: Seq<u8>) -> Option<UserView> {
    decode_user_fields(bytes, UserView::empty())
}

proof fn lemma_user_bytes_suffix(u: UserView)
    ensures
        user_bytes(u) == user_suffix(u, 0),
{
    reveal_with_fuel(user_suffix, 4);
    assert(user_bytes(u) =~= user_suffix(u, 0));
}

/// Splits the encoding of the fields above `j` at its first present field.
proof fn lemma_user_suffix_head(u: UserView, j: int) -> (f: int)
    requires
        0 <= j < 3,
        user_suffix(u, j).len() > 0,
    ensures
        j < f <= 3,
        u.field(f).len() > 0,
        forall|g: int| j < g < f ==> #[trigger] u.field(g).len() == 0,
        user_suffix(u, j) == string_field(f as u32, u.field(f)) + user_suffix(u, f),
    decreases 3 - j,
{
    if u.field(j + 1).len() > 0 {
        j + 1
    } else {
        assert(user_suffix(u, j) =~= user_suffix(u, j + 1));
        lemma_user_suffix_head(u, j + 1)
    }
}

/// When nothing is encoded above `j`, the fields above `j` are empty.
proof fn lemma_user_suffix_empty(u: UserView, j: int)
    requires
        0 <= j <= 3,
        user_suffix(u, j).len() == 0,
    ensures
        u.prefix(j) == u,
    decreases 3 - j,
{
    if j < 3 {
        assert(u.field(j + 1).len() == 0);
        lemma_user_suffix_empty(u, j + 1);
        assert(u.prefix(j) =~= u.prefix(j + 1));
    }
}

impl User {
    /// Encodes the user as a message.
    pub fn encode_to_vec(&self) -> (bytes: Vec<u8>)
        ensures
            bytes@ == user_bytes(self@),
    {
        let mut buf: Vec<u8> = Vec::new();
        put_optional_string_field(1, &self.id, &mut buf);
        put_optional_string_field(2, &self.username, &mut buf);
        put_optional_string_field(3, &self.password_hash, &mut buf);
        assert(buf@ =~= user_bytes(self@));
        buf
    }
}

/// `bytes` is the encoding of the encodable user `t`.
pub open spec fn encodes_user(t: UserView, bytes: Seq<u8>) -> bool {
    user_bytes(t) == bytes && t.encodable()
}

/// Decoding `t`'s encoding has consumed all fields up to some field `j`:
/// `input` is left and `acc` holds exactly those fields.
spec fn at_stage(t: UserView, input: Seq<u8>, acc: UserView) -> bool {
    exists|j: int| 0 <= j <= 3 && input == user_suffix(t, j) && acc == t.prefix(j)
}

/// The next field of `t`'s encoding after field `j`, split into its key, its
/// length and its bytes.
proof fn lemma_next_field(t: UserView, j: int, input: Seq<u8>) -> (f: int)
    requires
        t.encodable(),
        0 <= j <= 3,
        input == user_suffix(t, j),
        input.len() > 0,
    ensures
        j < f <= 3,
        forall|g: int| j < g < f ==> #[trigger] t.field(g).len() == 0,
        input == varint((f * 8 + 2) as u64) + (varint(encode_utf8(t.field(f)).len() as u64)
            + encode_utf8(t.field(f)) + user_suffix(t, f)),
        ((f * 8 + 2) as u64) <= u32::MAX,
        ((f * 8 + 2) as u64) % 8 == 2,
        ((f * 8 + 2) as u64) / 8 == f,
        encode_utf8(t.field(f)).len() == (encode_utf8(t.field(f)).len() as u64),
{
    let f = lemma_user_suffix_head(t, j);
    let fs = t.field(f);
    assert(input =~= varint((f * 8 + 2) as u64) + (varint(encode_utf8(fs).len() as u64)
        + encode_utf8(fs) + user_suffix(t, f)));
    f
}

/// Reading field `f` of `t` moves decoding from stage `j` to stage `f`.
proof fn lemma_stage_advance(t: UserView, j: int, f: int, acc: UserView, s: Seq<char>)
    requires
        0 <= j < f <= 3,
        forall|g: int| j < g < f ==> #[trigger] t.field(g).len() == 0,
        acc == t.prefix(j),
        s == t.field(f),
    ensures
        acc.with_field(f, s) == t.prefix(f),
{
    assert(t.field(j + 1).len() == 0 || j + 1 == f);
    assert(t.field(j + 2).len() == 0 || j + 2 >= f);
    assert(acc.with_field(f, s) =~= t.prefix(f));
}

impl User {
    /// Decodes a user message.
    ///
    /// The result is what `decoded_user` gives; in particular the encoding of a
    /// user decodes to that user.
    pub fn decode(bytes: &[u8]) -> (res: Result<User, WireError>)
        ensures
            match res {
                Ok(u) => decoded_user(bytes@) == Some(u@),
                Err(_) => decoded_user(bytes@) is None,
            },
            forall|t: UserView| #[trigger] encodes_user(t, bytes@) ==> match res {
                Ok(u) => u@ == t,
                Err(_) => false,
            },
    {
        let mut user = User { id: String::new(), username: String::new(), password_hash: String::new() };
        let mut input: &[u8] = bytes;
        proof {
            assert forall|t: UserView| #[trigger] encodes_user(t, bytes@) implies at_stage(
                t,
                input@,
                user@,
            ) by {
                lemma_user_bytes_suffix(t);
                assert(user@ =~= t.prefix(0));
            }
        }
        while input.len() > 0
            invariant
                decoded_user(bytes@) == decode_user_fields(input@, user@),
                forall|t: UserView| #[trigger] encodes_user(t, bytes@) ==> at_stage(t, input@, user@),
            decreases input.len(),
        {
            let ghost before = input@;
            let ghost acc = user@;
            let (tag, kind, rest) = match take_key(input) {
                Ok(k) => k,
                Err(_) => {
                    proof {
                        assert forall|t: UserView| #[trigger] encodes_user(t, bytes@) implies false by {
                            let j = choose|j: int|
                                0 <= j <= 3 && before == user_suffix(t, j) && acc == t.prefix(j);
                            lemma_next_field(t, j, before);
                        }
                    }
                    return Err(WireError::Malformed);
                },
            };
            let is_string = match kind {
                WireKind::LengthDelimited => true,
                _ => false,
            };
            if tag == 1 || tag == 2 || tag == 3 {
                if !is_string {
                    proof {
                        assert forall|t: UserView| #[trigger] encodes_user(t, bytes@) implies false by {
                            let j = choose|j: int|
                                0 <= j <= 3 && before == user_suffix(t, j) && acc == t.prefix(j);
                            lemma_next_field(t, j, before);
                        }
                    }
                    return Err(WireError::Malformed);
                }
                let (s, after) = match take_string(rest) {
                    Ok(r) => r,
                    Err(_) => {
                        proof {
                            assert forall|t: UserView| #[trigger]
                                encodes_user(t, bytes@) implies false by {
                                let j = choose|j: int|
                                    0 <= j <= 3 && before == user_suffix(t, j) && acc == t.prefix(j);
                                let f = lemma_next_field(t, j, before);
                                let fs = t.field(f);
                                assert(rest@ == varint(encode_utf8(fs).len() as u64) + encode_utf8(fs)
                                    + user_suffix(t, f));
                            }
                        }
                        return Err(WireError::Malformed);
                    },
                };
                if tag == 1 {
                    user.id = s;
                } else if tag == 2 {
                    user.username = s;
                } else {
                    user.password_hash = s;
                }
                proof {
                    assert(user@ =~= acc.with_field(tag as int, s@));
                    assert forall|t: UserView| #[trigger] encodes_user(t, bytes@) implies at_stage(
                        t,
                        after@,
                        user@,
                    ) by {
                        let j = choose|j: int|
                            0 <= j <= 3 && before == user_suffix(t, j) && acc == t.prefix(j);
                        let f = lemma_next_field(t, j, before);
                        let fs = t.field(f);
                        assert(rest@ == varint(encode_utf8(fs).len() as u64) + encode_utf8(fs)
                            + user_suffix(t, f));
                        lemma_stage_advance(t, j, f, acc, fs);
                        assert(after@ == user_suffix(t, f) && user@ == t.prefix(f));
                    }
                }
                input = after;
            } else {
                let after = match skip_value(kind, tag, rest) {
                    Ok(r) => r,
                    Err(_) => {
                        proof {
                            assert forall|t: UserView| #[trigger]
                                encodes_user(t, bytes@) implies false by {
                                let j = choose|j: int|
                                    0 <= j <= 3 && before == user_suffix(t, j) && acc == t.prefix(j);
                                lemma_next_field(t, j, before);
                            }
                        }
                        return Err(WireError::Malformed);
                    },
                };
                proof {
                    assert forall|t: UserView| #[trigger] encodes_user(t, bytes@) implies false by {
                        let j = choose|j: int|
                            0 <= j <= 3 && before == user_suffix(t, j) && acc == t.prefix(j);
                        lemma_next_field(t, j, before);
                    }
                }
                input = after;
            }
        }
        proof {
            assert forall|t: UserView| #[trigger] encodes_user(t, bytes@) implies user@ == t by {
                let j = choose|j: int|
                    0 <= j <= 3 && input@ == user_suffix(t, j) && user@ == t.prefix(j);
                lemma_user_suffix_empty(t, j);
            }
        }
        Ok(user)
    }
}

/// The claims of a token issued to a user: its id and its username.
impl From<User> for ClaimsUser {
    fn from(user: User) -> (claims: ClaimsUser) {
        ClaimsUser { id: user.id, username: user.username }
    }
}

impl vstd::std_specs::convert::FromSpecImpl<User> for ClaimsUser {
    open spec fn obeys_from_spec() -> bool {
        true
    }

    open spec fn from_spec(v: User) -> ClaimsUser {
        ClaimsUser { id: v.id, username: v.username }
    }
}

} // verus!
