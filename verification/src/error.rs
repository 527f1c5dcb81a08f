//! The ways in which an authorization header can fail, and how each is rendered.

use vstd::prelude::*;
use vstd::string::*;

verus! {

/// Why an authorization header was not accepted.
#[allow(clippy::enum_variant_names)]
#[derive(Debug)]
pub enum JwtDecodeErrors {
    /// The header value holds a byte that is not visible ASCII.
    InvalidAuthHeader,
    /// The header value is text but does not start with `Bearer `.
    InvalidJWTHeader,
    /// The token codec refused the token; the cause is the codec's own error.
    InvalidJWTToken(jsonwebtoken::errors::Error),
}

/// Description of [`JwtDecodeErrors::InvalidAuthHeader`].
pub const INVALID_AUTH_HEADER: &'static str =
    "Invalid authorization header - header contains invalid ASCII characters";

/// Description of [`JwtDecodeErrors::InvalidJWTHeader`].
pub const INVALID_JWT_HEADER: &'static str =
    "Invalid authorization header - header need to have this format 'Bearer HEADER.PAYLOAD.SIGNATURE' where all three parts need to be base64 encoded and separated by a dot";

/// What the description of [`JwtDecodeErrors::InvalidJWTToken`] starts with;
/// the codec's rendering of the cause follows it.
pub const INVALID_JWT_TOKEN: &'static str =
    "Invalid JWT token - an error occurred when decoding token: ";

/// Status of the response that is sent when no error mapper is installed.
pub const BAD_REQUEST: u16 = 400;

impl JwtDecodeErrors {
    /// Whether `text` is a description of this error.
    ///
    /// The first two classifications have one fixed description each. A codec
    /// failure is described by the fixed opening followed by the cause as the
    /// codec displays it.
    pub open spec fn described_by(self, text: Seq<char>) -> bool {
        match self {
            JwtDecodeErrors::InvalidAuthHeader => text == INVALID_AUTH_HEADER@,
            JwtDecodeErrors::InvalidJWTHeader => text == INVALID_JWT_HEADER@,
            JwtDecodeErrors::InvalidJWTToken(cause) => exists|shown: String|
                #[trigger] to_string_from_display_ensures::<jsonwebtoken::errors::Error>(
                    &cause,
                    shown,
                ) && text == INVALID_JWT_TOKEN@ + shown@,
        }
    }

    /// The user-facing description of this error.
    pub fn to_error_string(&self) -> (text: String)
        ensures
            self.described_by(text@),
    {
        match self {
            JwtDecodeErrors::InvalidAuthHeader => INVALID_AUTH_HEADER.to_owned(),
            JwtDecodeErrors::InvalidJWTHeader => INVALID_JWT_HEADER.to_owned(),
            JwtDecodeErrors::InvalidJWTToken(cause) => {
                let shown = cause.to_string();
                invalid_token_message(shown.as_str())
            },
        }
    }
}

/// The description of a codec failure whose cause is displayed as `cause`.
pub fn invalid_token_message(cause: &str) -> (text: String)
    ensures
        text@ == INVALID_JWT_TOKEN@ + cause@,
{
    INVALID_JWT_TOKEN.to_owned().concat(cause)
}

/// A response in plain values: a status code and a text body.
#[derive(Debug, Clone, PartialEq, Eq)]
pub struct ErrorResponse {
    pub status: u16,
    pub body: String,
}

/// Whether `response` is the default rendering of `error`: status 400 and a
/// description of the error as body.
pub open spec fn is_default_response(error: JwtDecodeErrors, response: ErrorResponse) -> bool {
    response.status == BAD_REQUEST && error.described_by(response.body@)
}

/// The response to `error` when no error mapper is installed.
pub fn default_response(error: &JwtDecodeErrors) -> (response: ErrorResponse)
    ensures
        is_default_response(*error, response),
{
    ErrorResponse { status: BAD_REQUEST, body: error.to_error_string() }
}

} // verus!
