//! Authentication of a request by the bearer token in its `Authorization`
//! header, checked with the service.

use crate::client::request::VerifyTokenRequest;
use crate::client::response::VerifyTokenResponse;
use crate::client::Error;
use crate::status::{StatusCode, BAD_REQUEST, INTERNAL_SERVER_ERROR, UNAUTHORIZED};
use vstd::prelude::*;
use vstd::utf8::*;

verus! {

broadcast use decode_utf8_encode_utf8;

/// The user that an authenticated request comes from.
#[derive(Clone, Copy, Debug, PartialEq, Eq, Structural)]
pub struct ClaimsUser {
    pub id: i32,
}

/// An authenticated request's user.
#[derive(Clone, Copy, Debug, PartialEq, Eq, Structural)]
pub struct Authenticate(pub ClaimsUser);

/// An authenticated request reads as its user.
impl core::ops::Deref for Authenticate {
    type Target = ClaimsUser;

    fn deref(&self) -> (c: &ClaimsUser)
        ensures
            *c == self.0,
    {
        &self.0
    }
}

/// A byte that `http::HeaderValue::to_str` accepts: visible ASCII or a tab.
pub open spec fn is_visible_ascii(b: u8) -> bool {
    (32 <= b && b < 127) || b == 9
}

/// A header value that reads as text.
pub open spec fn all_visible_ascii(h: Seq<u8>) -> bool {
    forall|i: int| 0 <= i < h.len() ==> is_visible_ascii(#[trigger] h[i])
}

/// ASCII upper case of a byte: `a` to `z` become `A` to `Z`, other bytes stay.
pub open spec fn ascii_upper(b: u8) -> u8 {
    if 97 <= b <= 122 {
        (b - 32) as u8
    } else {
        b
    }
}

/// The scheme is `Bearer` in any mix of upper and lower case: its upper
/// case is `BEARER`.
pub open spec fn is_bearer_scheme(s: Seq<u8>) -> bool {
    &&& s.len() == 6
    &&& ascii_upper(s[0]) == 66
    &&& ascii_upper(s[1]) == 69
    &&& ascii_upper(s[2]) == 65
    &&& ascii_upper(s[3]) == 82
    &&& ascii_upper(s[4]) == 69
    &&& ascii_upper(s[5]) == 82
}

/// The position of the first space in `h`, which holds one.
pub open spec fn first_space(h: Seq<u8>) -> int {
    choose|i: int| 0 <= i < h.len() && h[i] == 32 && forall|j: int| 0 <= j < i ==> h[j] != 32
}

/// What the `Authorization` header gives: the bytes of the token after
/// `Bearer `, or the status that refuses the request. A missing header or
/// one that is not text is answered 401; a header without a space, or whose
/// scheme is not `Bearer`, is answered 400.
pub open spec fn bearer_token(header: Option<Seq<u8>>) -> Result<Seq<u8>, u16> {
    match header {
        None => Err(UNAUTHORIZED),
        Some(h) => {
            if !all_visible_ascii(h) {
                Err(UNAUTHORIZED)
            } else if !h.contains(32) {
                Err(BAD_REQUEST)
            } else if !is_bearer_scheme(h.take(first_space(h))) {
                Err(BAD_REQUEST)
            } else {
                Ok(h.skip(first_space(h) + 1))
            }
        },
    }
}

/// The first space of a header is where the first byte 32 stands.
proof fn lemma_first_space_at(h: Seq<u8>, i: int)
    requires
        0 <= i < h.len(),
        h[i] == 32,
        forall|j: int| 0 <= j < i ==> h[j] != 32,
    ensures
        h.contains(32),
        first_space(h) == i,
{
    assert(h[i] == 32);
    let fs = first_space(h);
    assert(0 <= fs < h.len() && h[fs] == 32 && forall|j: int| 0 <= j < fs ==> h[j] != 32);
    if fs < i {
        assert(h[fs] != 32);
    } else if fs > i {
        assert(h[i] != 32);
    }
}

/// A header made of a scheme, a space and a token.
pub open spec fn header_of(scheme: Seq<u8>, token: Seq<u8>) -> Seq<u8> {
    scheme + seq![32u8] + token
}

/// A header made of `Bearer` in any case, a space and a text token reads
/// back as that token.
pub proof fn law_bearer_header_reads_back(scheme: Seq<u8>, token: Seq<u8>)
    requires
        is_bearer_scheme(scheme),
        all_visible_ascii(token),
    ensures
        bearer_token(Some(header_of(scheme, token))) == Ok::<Seq<u8>, u16>(token),
{
    let h = header_of(scheme, token);
    assert forall|j: int| 0 <= j < 6 implies #[trigger] scheme[j] != 32 && is_visible_ascii(
        scheme[j],
    ) by {
        assert(j == 0 || j == 1 || j == 2 || j == 3 || j == 4 || j == 5);
    }
    assert forall|i: int| 0 <= i < h.len() implies is_visible_ascii(#[trigger] h[i]) by {
        if i < 6 {
            assert(h[i] == scheme[i]);
        } else if i > 6 {
            assert(h[i] == token[i - 7]);
        }
    }
    assert forall|j: int| 0 <= j < 6 implies h[j] != 32 by {
        assert(h[j] == scheme[j]);
    }
    lemma_first_space_at(h, 6);
    assert(h.take(6) =~= scheme);
    assert(h.skip(7) =~= token);
}

/// The upper case of `BEARER`, as bytes.
pub open spec fn bearer_upper() -> Seq<u8> {
    seq![66u8, 69u8, 65u8, 82u8, 69u8, 82u8]
}

/// A scheme is taken for `Bearer` exactly when its ASCII upper case is the
/// six bytes `BEARER`.
pub proof fn law_bearer_scheme_is_bearer(s: Seq<u8>)
    ensures
        is_bearer_scheme(s) <==> s.map_values(|b: u8| ascii_upper(b)) == bearer_upper(),
{
    let up = s.map_values(|b: u8| ascii_upper(b));
    if is_bearer_scheme(s) {
        assert(up =~= bearer_upper());
    }
    if up == bearer_upper() {
        assert(up.len() == 6);
        assert(up[0] == ascii_upper(s[0]));
        assert(up[1] == ascii_upper(s[1]));
        assert(up[2] == ascii_upper(s[2]));
        assert(up[3] == ascii_upper(s[3]));
        assert(up[4] == ascii_upper(s[4]));
        assert(up[5] == ascii_upper(s[5]));
    }
}

/// A header whose scheme is text without spaces but whose upper case is not
/// `BEARER` (`Digest`, `Basic`, `Bearex`, ...) is refused with 400, whatever
/// follows it.
pub proof fn law_other_schemes_are_refused(scheme: Seq<u8>, token: Seq<u8>)
    requires
        scheme.len() > 0,
        all_visible_ascii(scheme),
        !scheme.contains(32),
        all_visible_ascii(token),
        scheme.map_values(|b: u8| ascii_upper(b)) != bearer_upper(),
    ensures
        bearer_token(Some(header_of(scheme, token))) == Err::<Seq<u8>, u16>(400),
{
    law_bearer_scheme_is_bearer(scheme);
    let h = header_of(scheme, token);
    let n = scheme.len() as int;
    assert forall|i: int| 0 <= i < h.len() implies is_visible_ascii(#[trigger] h[i]) by {
        if i < n {
            assert(h[i] == scheme[i]);
        } else if i > n {
            assert(h[i] == token[i - n - 1]);
        }
    }
    assert forall|j: int| 0 <= j < n implies h[j] != 32 by {
        assert(h[j] == scheme[j]);
        if scheme[j] == 32 {
            assert(scheme.contains(32));
        }
    }
    lemma_first_space_at(h, n);
    assert(h.take(n) =~= scheme);
}

/// A request without the header, or whose header is not text, is refused
/// with 401; a text header without a space is refused with 400.
pub proof fn law_unreadable_headers_are_refused(h: Seq<u8>)
    ensures
        bearer_token(None) == Err::<Seq<u8>, u16>(401),
        !all_visible_ascii(h) ==> bearer_token(Some(h)) == Err::<Seq<u8>, u16>(401),
        all_visible_ascii(h) && !h.contains(32) ==> bearer_token(Some(h)) == Err::<Seq<u8>, u16>(
            400,
        ),
{
}

/// The header value as plain bytes.
pub open spec fn header_view(header: Option<&[u8]>) -> Option<Seq<u8>> {
    match header {
        Some(h) => Some(h@),
        None => None,
    }
}

/// Wraps `String::from_utf8`: the bytes become a string exactly when they
/// are valid UTF-8, and the string is the one that they encode.
#[verifier::external_body]
fn string_from_utf8(bytes: Vec<u8>) -> (res: Option<String>)
    ensures
        res is Some <==> valid_utf8(bytes@),
        res matches Some(s) ==> s@ == decode_utf8(bytes@),
{
    match String::from_utf8(bytes) {
        Ok(s) => Some(s),
        Err(_) => None,
    }
}

/// ASCII bytes are valid UTF-8.
proof fn lemma_ascii_valid_utf8(b: Seq<u8>)
    requires
        forall|i: int| 0 <= i < b.len() ==> #[trigger] b[i] < 128,
    ensures
        valid_utf8(b),
    decreases b.len(),
{
    if b.len() > 0 {
        let x = b[0];
        assert((x & 0x7F) as u32 <= 0x7f) by (bit_vector);
        let rest = b.subrange(1, b.len() as int);
        assert forall|i: int| 0 <= i < rest.len() implies #[trigger] rest[i] < 128 by {
            assert(rest[i] == b[i + 1]);
        }
        lemma_ascii_valid_utf8(rest);
        assert(pop_first_scalar(b) =~= rest);
    }
}

fn upper(b: u8) -> (u: u8)
    ensures
        u == ascii_upper(b),
{
    if 97 <= b && b <= 122 {
        b - 32
    } else {
        b
    }
}

/// Reads the token from the `Authorization` header, as an extractor of the
/// authenticated user does before it asks the service: the result is the
/// request for the token that `bearer_token` gives, or the status that it
/// refuses the header with.
pub fn parse_authorization(header: Option<&[u8]>) -> (res: Result<VerifyTokenRequest, StatusCode>)
    ensures
        match bearer_token(header_view(header)) {
            Ok(t) => res matches Ok(r) && encode_utf8(r.token@) == t,
            Err(code) => res == Err::<VerifyTokenRequest, StatusCode>(StatusCode { code }),
        },
{
    let h = match header {
        None => return Err(StatusCode { code: UNAUTHORIZED }),
        Some(h) => h,
    };
    let n = h.len();
    let mut i: usize = 0;
    while i < n
        invariant
            n == h@.len(),
            0 <= i <= n,
            header_view(header) == Some(h@),
            forall|j: int| 0 <= j < i ==> is_visible_ascii(#[trigger] h@[j]),
        decreases n - i,
    {
        let b = h[i];
        if !((32 <= b && b < 127) || b == 9) {
            proof {
                assert(!is_visible_ascii(h@[i as int]));
            }
            return Err(StatusCode { code: UNAUTHORIZED });
        }
        i = i + 1;
    }
    let mut sp: usize = 0;
    while sp < n && h[sp] != 32
        invariant
            n == h@.len(),
            0 <= sp <= n,
            forall|j: int| 0 <= j < sp ==> h@[j] != 32,
        decreases n - sp,
    {
        sp = sp + 1;
    }
    if sp == n {
        proof {
            assert(!h@.contains(32));
        }
        return Err(StatusCode { code: BAD_REQUEST });
    }
    proof {
        lemma_first_space_at(h@, sp as int);
    }
    let is_bearer = sp == 6 && upper(h[0]) == 66 && upper(h[1]) == 69 && upper(h[2]) == 65
        && upper(h[3]) == 82 && upper(h[4]) == 69 && upper(h[5]) == 82;
    if !is_bearer {
        proof {
            if sp == 6 {
                assert(h@.take(6) =~= h@.subrange(0, 6));
            }
        }
        return Err(StatusCode { code: BAD_REQUEST });
    }
    proof {
        assert(h@.take(6) =~= h@.subrange(0, 6));
    }
    let mut token: Vec<u8> = Vec::new();
    let mut p: usize = sp + 1;
    while p < n
        invariant
            n == h@.len(),
            sp < p <= n,
            header_view(header) == Some(h@),
            all_visible_ascii(h@),
            h@.contains(32),
            first_space(h@) == sp,
            is_bearer_scheme(h@.take(sp as int)),
            token@ == h@.subrange(sp + 1, p as int),
        decreases n - p,
    {
        token.push(h[p]);
        p = p + 1;
        proof {
            assert(token@ =~= h@.subrange(sp + 1, p as int));
        }
    }
    proof {
        assert(token@ =~= h@.skip(sp + 1));
        assert forall|i: int| 0 <= i < token@.len() implies #[trigger] token@[i] < 128 by {
            assert(token@[i] == h@[sp + 1 + i]);
            assert(is_visible_ascii(h@[sp + 1 + i]));
        }
        lemma_ascii_valid_utf8(token@);
    }
    let ghost token_bytes = token@;
    match string_from_utf8(token) {
        Some(s) => Ok(VerifyTokenRequest { token: s }),
        None => Err(StatusCode { code: BAD_REQUEST }),
    }
}

impl Authenticate {
    /// The extractor's answer once the service has checked the token: the
    /// user that the service names, or 500 when the check failed.
    pub fn from_verification(verified: Result<VerifyTokenResponse, Error>) -> (res: Result<
        Authenticate,
        StatusCode,
    >)
        ensures
            match verified {
                Ok(r) => res == Ok::<Authenticate, StatusCode>(
                    Authenticate(ClaimsUser { id: r.user_id }),
                ),
                Err(_) => res == Err::<Authenticate, StatusCode>(
                    StatusCode { code: INTERNAL_SERVER_ERROR },
                ),
            },
    {
        match verified {
            Ok(r) => Ok(Authenticate(ClaimsUser { id: r.user_id })),
            Err(_) => Err(StatusCode { code: INTERNAL_SERVER_ERROR }),
        }
    }
}

} // verus!
