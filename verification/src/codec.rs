//! The boundary to the token codec.
//!
//! The codec is `jsonwebtoken`. It parses the three segments of a compact
//! token, verifies the signature against a key and checks the claims against a
//! validation policy. None of that is verified here: key, policy and the
//! codec's error are opaque values, and whether a token is accepted is the
//! codec's word. What this module proves is what is done with that word.

use serde::de::DeserializeOwned;
use vstd::prelude::*;

use crate::error::JwtDecodeErrors;
use crate::header::{bearer_token, carries_token, has_bearer_scheme, is_header_text};

verus! {

/// The key that signatures are verified against.
#[verifier::external_type_specification]
#[verifier::external_body]
pub struct ExDecodingKey(jsonwebtoken::DecodingKey);

/// The validation policy: which algorithms are allowed and which claims are
/// checked.
#[verifier::external_type_specification]
#[verifier::external_body]
pub struct ExValidation(jsonwebtoken::Validation);

/// The codec's error, carried through as the cause of a failed decode.
#[verifier::external_type_specification]
#[verifier::external_body]
pub struct ExCodecError(jsonwebtoken::errors::Error);

/// The value of a policy's public field `leeway`, in seconds.
pub uninterp spec fn policy_leeway(policy: jsonwebtoken::Validation) -> u64;

/// The value of a policy's public field `reject_tokens_expiring_in_less_than`,
/// in seconds.
pub uninterp spec fn policy_expiry_margin(policy: jsonwebtoken::Validation) -> u64;

/// Reads the field `leeway` of `jsonwebtoken::Validation`.
#[verifier::external_body]
fn leeway_of(policy: &jsonwebtoken::Validation) -> (seconds: u64)
    ensures
        seconds == policy_leeway(*policy),
{
    policy.leeway
}

/// Reads the field `reject_tokens_expiring_in_less_than` of
/// `jsonwebtoken::Validation`.
#[verifier::external_body]
fn expiry_margin_of(policy: &jsonwebtoken::Validation) -> (seconds: u64)
    ensures
        seconds == policy_expiry_margin(*policy),
{
    policy.reject_tokens_expiring_in_less_than
}

/// The largest leeway of a supported policy: 10^9 seconds.
pub const MAX_LEEWAY: u64 = 1_000_000_000;

/// The policies that the codec can be called with.
///
/// The codec compares a token's `exp` and `nbf` with the clock in unchecked
/// `u64` arithmetic: it subtracts the expiry margin from `exp`, subtracts the
/// leeway from the current Unix time and adds the leeway to it. A token may
/// carry any `exp`, so only a margin of zero is in range for every token. With
/// a leeway of at most [`MAX_LEEWAY`] the other two are in range for every
/// clock that reads between 10^9 seconds (September 2001) and 2^63 seconds.
pub open spec fn policy_supported(policy: jsonwebtoken::Validation) -> bool {
    policy_expiry_margin(policy) == 0 && policy_leeway(policy) <= MAX_LEEWAY
}

/// Whether the codec can be called with this policy.
pub fn is_supported(policy: &jsonwebtoken::Validation) -> (ok: bool)
    ensures
        ok == policy_supported(*policy),
{
    expiry_margin_of(policy) == 0 && leeway_of(policy) <= MAX_LEEWAY
}

/// Calls `jsonwebtoken::decode` and keeps the claims of the token data it
/// returns.
///
/// Nothing is promised of the result: it is the codec's verdict on the token,
/// and with a policy that checks `exp` or `nbf` it depends on the clock.
#[verifier::external_body]
fn codec_decode<T: DeserializeOwned>(
    token: &str,
    key: &jsonwebtoken::DecodingKey,
    policy: &jsonwebtoken::Validation,
) -> (decoded: Result<T, jsonwebtoken::errors::Error>)
    requires
        policy_supported(*policy),
{
    match jsonwebtoken::decode::<T>(token, key, policy) {
        Ok(data) => Ok(data.claims),
        Err(cause) => Err(cause),
    }
}

/// What a decode returns for each verdict of the codec: the claims as they
/// are, or the codec's error wrapped as the cause of `InvalidJWTToken`.
pub fn claims_or_error<T>(verdict: Result<T, jsonwebtoken::errors::Error>) -> (decoded: Result<
    T,
    JwtDecodeErrors,
>)
    ensures
        decoded == match verdict {
            Ok(claims) => Ok::<T, JwtDecodeErrors>(claims),
            Err(cause) => Err(JwtDecodeErrors::InvalidJWTToken(cause)),
        },
{
    match verdict {
        Ok(claims) => Ok(claims),
        Err(cause) => Err(JwtDecodeErrors::InvalidJWTToken(cause)),
    }
}

/// Decodes the claims that an `Authorization` header value carries.
///
/// The value is checked in order: it must be text, then open with `Bearer `,
/// and then the rest of it is handed to the codec with the key and the policy.
/// A value that fails one of the first two checks is refused with the error
/// of that check and the codec is not called. For every other value the
/// codec decides, and its refusal comes back as `InvalidJWTToken`. So claims
/// come only out of a value that passed both checks and the codec.
pub fn decode_jwt<T: DeserializeOwned>(
    header_value: &[u8],
    decoding_key: &jsonwebtoken::DecodingKey,
    validation: &jsonwebtoken::Validation,
) -> (decoded: Result<T, JwtDecodeErrors>)
    requires
        policy_supported(*validation),
    ensures
        !is_header_text(header_value@) ==> decoded matches Err(JwtDecodeErrors::InvalidAuthHeader),
        is_header_text(header_value@) && !has_bearer_scheme(header_value@) ==> decoded matches Err(
            JwtDecodeErrors::InvalidJWTHeader,
        ),
        carries_token(header_value@) ==> (decoded is Ok || decoded matches Err(
            JwtDecodeErrors::InvalidJWTToken(_),
        )),
        decoded is Ok ==> carries_token(header_value@),
{
    match bearer_token(header_value) {
        Ok(token) => claims_or_error(codec_decode::<T>(token, decoding_key, validation)),
        Err(error) => Err(error),
    }
}

} // verus!
