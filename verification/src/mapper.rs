//! Error mappers: what is sent to the client in place of the downstream
//! stage's response when a header is refused.

use vstd::prelude::*;

use crate::error::{default_response, is_default_response, ErrorResponse, JwtDecodeErrors};

verus! {

/// How an error becomes the response that is sent in place of the downstream
/// stage's.
///
/// A factory starts out with [`DefaultMapper`]. Any function from
/// [`JwtDecodeErrors`] to a response of the caller's own is a mapper too, and
/// what it returns is sent as it is.
pub trait ErrorMapper<E> {
    /// Whether the mapper can be called with `error`.
    spec fn accepts(&self, error: JwtDecodeErrors) -> bool;

    /// Whether the mapper may return `response` for `error`.
    spec fn maps(&self, error: JwtDecodeErrors, response: E) -> bool;

    /// The response to `error`.
    fn map_error(&self, error: JwtDecodeErrors) -> (response: E)
        requires
            self.accepts(error),
        ensures
            self.maps(error, response),
    ;
}

/// The mapper of a factory that no other mapper was installed in: it answers
/// every error with [`default_response`].
#[derive(Debug, Clone, Copy)]
pub struct DefaultMapper;

impl ErrorMapper<ErrorResponse> for DefaultMapper {
    open spec fn accepts(&self, error: JwtDecodeErrors) -> bool {
        true
    }

    open spec fn maps(&self, error: JwtDecodeErrors, response: ErrorResponse) -> bool {
        is_default_response(error, response)
    }

    fn map_error(&self, error: JwtDecodeErrors) -> (response: ErrorResponse) {
        default_response(&error)
    }
}

impl<F, E> ErrorMapper<E> for F where F: Fn(JwtDecodeErrors) -> E {
    open spec fn accepts(&self, error: JwtDecodeErrors) -> bool {
        call_requires(*self, (error,))
    }

    open spec fn maps(&self, error: JwtDecodeErrors, response: E) -> bool {
        call_ensures(*self, (error,), response)
    }

    fn map_error(&self, error: JwtDecodeErrors) -> (response: E) {
        self(error)
    }
}

} // verus!
