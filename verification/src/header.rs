//! The checks on the value of an `Authorization` header, byte by byte.
//!
//! A header value is accepted in two steps. It must be text: every byte is a
//! visible ASCII character, a space or a tab. And the text must open with the
//! scheme `Bearer` and exactly one space. What follows the scheme is the token.

use vstd::prelude::*;
use vstd::slice::slice_subrange;
use vstd::string::*;
use vstd::utf8::*;

use crate::error::JwtDecodeErrors;

verus! {

/// Length of the scheme, the space after it included.
pub const SCHEME_LEN: usize = 7;

/// The bytes of `Bearer `: the scheme and the one space that ends it.
pub const BEARER: [u8; 7] = [0x42, 0x65, 0x61, 0x72, 0x65, 0x72, 0x20];

/// A byte that may stand in a header value that is read as text: the tab and
/// the ASCII range from the space to the tilde.
pub open spec fn is_visible_ascii(b: u8) -> bool {
    b == 9 || (32 <= b && b < 127)
}

/// Whether a header value is text, that is, made of visible ASCII alone.
pub open spec fn is_header_text(value: Seq<u8>) -> bool {
    forall|i: int| 0 <= i < value.len() ==> is_visible_ascii(#[trigger] value[i])
}

/// Whether a header value opens with `Bearer ` in exactly this spelling:
/// the case of each letter counts, and so does the one space.
pub open spec fn has_bearer_scheme(value: Seq<u8>) -> bool {
    value.len() >= SCHEME_LEN && as_text(value.subrange(0, SCHEME_LEN as int)) == "Bearer "@
}

/// Whether a header value passes both checks, so that it carries a token.
pub open spec fn carries_token(value: Seq<u8>) -> bool {
    is_header_text(value) && has_bearer_scheme(value)
}

/// What follows the scheme in a header value that opens with it.
pub open spec fn credentials(value: Seq<u8>) -> Seq<u8>
    recommends
        value.len() >= SCHEME_LEN,
{
    value.subrange(SCHEME_LEN as int, value.len() as int)
}

/// ASCII bytes read as characters, one for one.
pub open spec fn as_text(bytes: Seq<u8>) -> Seq<char> {
    Seq::new(bytes.len(), |i: int| bytes[i] as char)
}

/// The error type of `core::str::from_utf8`.
#[verifier::external_type_specification]
#[verifier::external_body]
pub struct ExUtf8Error(core::str::Utf8Error);

/// `core::str::from_utf8` succeeds exactly on well-formed UTF-8 and then
/// returns the very bytes it was given, typed as a string slice.
pub assume_specification[ core::str::from_utf8 ](v: &[u8]) -> (r: Result<
    &str,
    core::str::Utf8Error,
>)
    ensures
        r is Ok <==> valid_utf8(v@),
        r matches Ok(s) ==> s.spec_bytes() == v@,
;

/// The bytes of [`BEARER`] spell `Bearer `.
pub proof fn lemma_bearer_spelling()
    ensures
        "Bearer "@.len() == SCHEME_LEN,
        as_text(BEARER@) == "Bearer "@,
{
    reveal_strlit("Bearer ");
    assert(as_text(BEARER@) =~= "Bearer "@);
}

/// ASCII bytes are well-formed UTF-8, and the string they encode has one
/// character for each byte.
pub proof fn lemma_ascii_is_utf8(bytes: Seq<u8>)
    requires
        forall|i: int| 0 <= i < bytes.len() ==> #[trigger] bytes[i] < 128,
    ensures
        valid_utf8(bytes),
        encode_utf8(as_text(bytes)) == bytes,
        decode_utf8(bytes) == as_text(bytes),
{
    let text = as_text(bytes);
    assert(is_ascii_chars(text));
    is_ascii_chars_encode_utf8(text);
    assert(encode_utf8(text) =~= bytes);
    encode_utf8_valid_utf8(text);
    encode_utf8_decode_utf8(text);
}

/// Whether every byte of the header value is visible ASCII.
pub fn is_text(value: &[u8]) -> (ok: bool)
    ensures
        ok == is_header_text(value@),
{
    let mut i: usize = 0;
    while i < value.len()
        invariant
            i <= value.len(),
            forall|j: int| 0 <= j < i ==> is_visible_ascii(#[trigger] value@[j]),
        decreases value.len() - i,
    {
        let b: u8 = value[i];
        if !(b == 9 || (32 <= b && b < 127)) {
            assert(!is_visible_ascii(value@[i as int]));
            return false;
        }
        i += 1;
    }
    true
}

/// Whether the header value opens with `Bearer ` in exactly this spelling.
pub fn has_scheme(value: &[u8]) -> (ok: bool)
    ensures
        ok == has_bearer_scheme(value@),
{
    if value.len() < SCHEME_LEN {
        return false;
    }
    let ghost head = as_text(value@.subrange(0, SCHEME_LEN as int));
    proof {
        lemma_bearer_spelling();
    }
    let mut i: usize = 0;
    while i < SCHEME_LEN
        invariant
            i <= SCHEME_LEN <= value.len(),
            head == as_text(value@.subrange(0, SCHEME_LEN as int)),
            as_text(BEARER@) == "Bearer "@,
            forall|j: int| 0 <= j < i ==> head[j] == #[trigger] "Bearer "@[j],
        decreases SCHEME_LEN - i,
    {
        if value[i] != BEARER[i] {
            assert(head[i as int] != as_text(BEARER@)[i as int]);
            return false;
        }
        assert(head[i as int] == as_text(BEARER@)[i as int]);
        i += 1;
    }
    assert(head =~= "Bearer "@);
    true
}

/// The token that a header value carries.
///
/// A value that is not text is refused as `InvalidAuthHeader`; text that does
/// not open with the scheme is refused as `InvalidJWTHeader`. Every other value
/// yields its token: the characters after the scheme, which may be none.
pub fn bearer_token<'a>(value: &'a [u8]) -> (token: Result<&'a str, JwtDecodeErrors>)
    ensures
        !is_header_text(value@) ==> token matches Err(JwtDecodeErrors::InvalidAuthHeader),
        is_header_text(value@) && !has_bearer_scheme(value@) ==> token matches Err(
            JwtDecodeErrors::InvalidJWTHeader,
        ),
        carries_token(value@) ==> (token matches Ok(text) && text@ == as_text(credentials(value@))),
{
    if !is_text(value) {
        return Err(JwtDecodeErrors::InvalidAuthHeader);
    }
    if !has_scheme(value) {
        return Err(JwtDecodeErrors::InvalidJWTHeader);
    }
    let rest = slice_subrange(value, SCHEME_LEN, value.len());
    proof {
        assert forall|i: int| 0 <= i < rest@.len() implies #[trigger] rest@[i] < 128 by {
            assert(is_visible_ascii(value@[i + SCHEME_LEN]));
        }
        lemma_ascii_is_utf8(rest@);
    }
    match core::str::from_utf8(rest) {
        Ok(text) => {
            proof {
                encode_utf8_decode_utf8(text@);
            }
            Ok(text)
        },
        // Visible ASCII is well-formed UTF-8, so this arm is never taken.
        Err(_) => Err(JwtDecodeErrors::InvalidAuthHeader),
    }
}

} // verus!
