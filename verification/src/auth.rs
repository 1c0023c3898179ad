use vstd::prelude::*;

use crate::errors::ApiError;

verus! {

/// A byte that may appear in a header value read as text: visible ASCII or
/// a horizontal tab.
pub open spec fn is_visible_ascii(b: u8) -> bool {
    (32 <= b && b < 127) || b == 9
}

pub open spec fn all_visible_ascii(bytes: Seq<u8>) -> bool {
    forall|i: int| 0 <= i < bytes.len() ==> is_visible_ascii(#[trigger] bytes[i])
}

/// The bytes of `Bearer ` (with its trailing space).
pub open spec fn bearer_prefix() -> Seq<u8> {
    seq![66u8, 101u8, 97u8, 114u8, 101u8, 114u8, 32u8]
}

pub open spec fn has_bearer_prefix(bytes: Seq<u8>) -> bool {
    bytes.len() >= 7 && bytes.subrange(0, 7) == bearer_prefix()
}

/// ASCII bytes read as characters.
pub open spec fn ascii_chars(bytes: Seq<u8>) -> Seq<char> {
    Seq::new(bytes.len(), |i: int| bytes[i] as char)
}

pub open spec fn is_unauthenticated(e: ApiError, text: Seq<char>) -> bool {
    e matches ApiError::Unauthenticated(m) && m@ == text
}

/// The outcome of reading a bearer token from an `Authorization` header:
/// the token's characters, or the text of the refusal.
pub open spec fn bearer_outcome(header: Option<Seq<u8>>) -> Result<Seq<char>, Seq<char>> {
    match header {
        None => Err("Authorization header is required"@),
        Some(bytes) => if !all_visible_ascii(bytes) {
            Err("Authorization header is not a valid string"@)
        } else if !has_bearer_prefix(bytes) {
            Err("Authorization header must start with 'Bearer '"@)
        } else {
            Ok(ascii_chars(bytes.subrange(7, bytes.len() as int)))
        },
    }
}

/// The bytes of an optional header value.
pub open spec fn header_bytes(header: Option<&[u8]>) -> Option<Seq<u8>> {
    match header {
        Some(h) => Some(h@),
        None => None,
    }
}

/// Whether every byte is visible ASCII (what `HeaderValue::to_str` checks).
pub fn is_header_text(bytes: &[u8]) -> (r: bool)
    ensures
        r == all_visible_ascii(bytes@),
        r == forall|i: int|
            0 <= i < bytes@.len() ==> ((32 <= #[trigger] bytes@[i] && bytes@[i] <= 126) || bytes@[i]
                == 9),
{
    let mut i: usize = 0;
    while i < bytes.len()
        invariant
            i <= bytes@.len(),
            all_visible_ascii(bytes@.subrange(0, i as int)),
        decreases bytes@.len() - i,
    {
        let b: u8 = bytes[i];
        if !((32 <= b && b < 127) || b == 9) {
            assert(!is_visible_ascii(bytes@[i as int]));
            return false;
        }
        assert(bytes@.subrange(0, i + 1) =~= bytes@.subrange(0, i as int).push(b));
        i = i + 1;
    }
    assert(bytes@.subrange(0, i as int) =~= bytes@);
    true
}

fn starts_with_bearer(bytes: &[u8]) -> (r: bool)
    ensures
        r == has_bearer_prefix(bytes@),
{
    if bytes.len() < 7 {
        return false;
    }
    let r = bytes[0] == 66 && bytes[1] == 101 && bytes[2] == 97 && bytes[3] == 114 && bytes[4]
        == 101 && bytes[5] == 114 && bytes[6] == 32;
    assert(r == (bytes@.subrange(0, 7) =~= bearer_prefix()));
    r
}

/// `String::from_utf8_lossy` on bytes that are all ASCII: ASCII is valid
/// UTF-8, so, as the standard library documents, the text is the bytes
/// read one character each.
#[verifier::external_body]
fn ascii_to_string(bytes: &[u8]) -> (r: String)
    requires
        forall|i: int| 0 <= i < bytes@.len() ==> #[trigger] bytes@[i] < 128,
    ensures
        r@ == ascii_chars(bytes@),
{
    String::from_utf8_lossy(bytes).into_owned()
}

fn unauthenticated(text: &str) -> (r: ApiError)
    ensures
        is_unauthenticated(r, text@),
{
    ApiError::Unauthenticated(String::from_str(text))
}

/// Reads the bearer token of an `Authorization` header value, given as its
/// raw bytes (`None` when the request has no such header).
pub fn bearer_token(header: Option<&[u8]>) -> (r: Result<String, ApiError>)
    ensures
        match bearer_outcome(header_bytes(header)) {
            Ok(t) => r matches Ok(s) && s@ == t,
            Err(text) => r matches Err(e) && is_unauthenticated(e, text),
        },
        header is None ==> (r matches Err(e) && (e matches ApiError::Unauthenticated(m) && m@
            == "Authorization header is required"@)),
        match header {
            Some(b) => {
                &&& (exists|i: int|
                    0 <= i < b@.len() && !((32 <= #[trigger] b@[i] && b@[i] <= 126) || b@[i] == 9))
                    ==> (r matches Err(e) && (e matches ApiError::Unauthenticated(m) && m@
                    == "Authorization header is not a valid string"@))
                &&& ((forall|i: int|
                    0 <= i < b@.len() ==> ((32 <= #[trigger] b@[i] && b@[i] <= 126) || b@[i] == 9))
                    && !(b@.len() >= 7 && b@[0] == 66 && b@[1] == 101 && b@[2] == 97 && b@[3] == 114
                    && b@[4] == 101 && b@[5] == 114 && b@[6] == 32)) ==> (r matches Err(e) && (
                e matches ApiError::Unauthenticated(m) && m@
                    == "Authorization header must start with 'Bearer '"@))
                &&& ((forall|i: int|
                    0 <= i < b@.len() ==> ((32 <= #[trigger] b@[i] && b@[i] <= 126) || b@[i] == 9))
                    && b@.len() >= 7 && b@[0] == 66 && b@[1] == 101 && b@[2] == 97 && b@[3] == 114
                    && b@[4] == 101 && b@[5] == 114 && b@[6] == 32) ==> (r matches Ok(s) && s@.len()
                    == b@.len() - 7 && forall|k: int|
                    0 <= k < s@.len() ==> #[trigger] s@[k] == (b@[k + 7] as char))
            },
            None => true,
        },
{
    match header {
        None => Err(unauthenticated("Authorization header is required")),
        Some(bytes) => {
            if !is_header_text(bytes) {
                return Err(unauthenticated("Authorization header is not a valid string"));
            }
            if !starts_with_bearer(bytes) {
                proof {
                    if bytes@.len() >= 7 && bytes@[0] == 66 && bytes@[1] == 101 && bytes@[2] == 97
                        && bytes@[3] == 114 && bytes@[4] == 101 && bytes@[5] == 114 && bytes@[6]
                        == 32 {
                        assert(bytes@.subrange(0, 7) =~= bearer_prefix());
                    }
                }
                return Err(unauthenticated("Authorization header must start with 'Bearer '"));
            }
            let (_, rest) = bytes.split_at(7);
            assert forall|i: int| 0 <= i < rest@.len() implies #[trigger] rest@[i] < 128 by {
                assert(rest@[i] == bytes@[i + 7]);
                assert(is_visible_ascii(bytes@[i + 7]));
            }
            Ok(ascii_to_string(rest))
        },
    }
}

/// The request authorizer: it holds the token decoder that accepted
/// bearer tokens are handed to.
pub struct JWTAuth<J> {
    jwt: J,
}

impl<J> JWTAuth<J> {
    pub closed spec fn spec_jwt(&self) -> J {
        self.jwt
    }

    pub fn new(jwt: J) -> (r: JWTAuth<J>)
        ensures
            r.spec_jwt() == jwt,
    {
        JWTAuth { jwt }
    }

    /// The token decoder.
    pub fn jwt(&self) -> (r: &J)
        ensures
            *r == self.spec_jwt(),
    {
        &self.jwt
    }

    /// Authorizes a request by its `Authorization` header value (`None`
    /// when absent): a refused header is answered with its refusal; an
    /// accepted bearer token is handed to `decode` with the decoder, and its
    /// answer (the principal, or the decoder's error) is the result.
    pub fn authorize<P, F: Fn(&J, String) -> Result<P, ApiError>>(
        &self,
        header: Option<&[u8]>,
        decode: F,
    ) -> (r: Result<P, ApiError>)
        requires
            forall|j: &J, t: String| decode.requires((j, t)),
        ensures
            match bearer_outcome(header_bytes(header)) {
                Err(text) => r matches Err(e) && is_unauthenticated(e, text),
                Ok(t) => exists|s: String| s@ == t && decode.ensures((&self.spec_jwt(), s), r),
            },
    {
        match bearer_token(header) {
            Err(e) => Err(e),
            Ok(token) => {
                let ghost t = token;
                let r = decode(&self.jwt, token);
                assert(decode.ensures((&self.spec_jwt(), t), r));
                r
            },
        }
    }
}

/// A header holding `Bearer ` followed by a token of visible ASCII yields
/// exactly that token back.
pub proof fn lemma_bearer_round_trip(token: Seq<u8>)
    requires
        all_visible_ascii(token),
    ensures
        bearer_outcome(Some(bearer_prefix() + token)) == Ok::<Seq<char>, Seq<char>>(
            ascii_chars(token),
        ),
{
    let h = bearer_prefix() + token;
    assert(h.subrange(0, 7) =~= bearer_prefix());
    assert(h.subrange(7, h.len() as int) =~= token);
    assert forall|i: int| 0 <= i < h.len() implies is_visible_ascii(#[trigger] h[i]) by {
        if i >= 7 {
            assert(h[i] == token[i - 7]);
        }
    }
}

} // verus!
