//! The interceptor bound to one downstream stage: what happens to a request.
//!
//! A request without an `Authorization` header is forwarded as it is, without
//! claims. A request with one is forwarded together with the decoded claims if
//! the header carries a token that the codec accepts, and is answered with a
//! rejection otherwise. A request that is answered is never forwarded.

use std::marker::PhantomData;
use std::sync::Arc;

use jsonwebtoken::{DecodingKey, Validation};
use serde::de::DeserializeOwned;
use vstd::prelude::*;

use crate::codec::{decode_jwt, policy_supported};
use crate::error::JwtDecodeErrors;
use crate::mapper::ErrorMapper;
use crate::header::{carries_token, has_bearer_scheme, is_header_text};
use crate::middleware::JwtMiddleware;

verus! {

/// What the interceptor returns for a request: the response of the downstream
/// stage, or the request together with the rejection that answers it.
///
/// The two sides keep their own types, so a later stage sees which one it got.
#[derive(Debug)]
pub enum Response<R, Q, E> {
    /// The request was forwarded; this is what the downstream stage returned.
    Downstream(R),
    /// The request was not forwarded; `rejection` is what the error mapper
    /// made of the error.
    Local { request: Q, rejection: E },
}

/// The interceptor: a downstream stage together with the configuration of the
/// factory that bound it.
///
/// The stage is a function of a request and the claims that were decoded for
/// it, `None` where the request carried no authorization header.
pub struct JwtService<S, T, H> {
    service: S,
    decoding_key: Arc<DecodingKey>,
    validation: Arc<Validation>,
    err_handler: Arc<H>,
    _token_data_type: PhantomData<T>,
}

impl<S, T, H> JwtService<S, T, H> {
    #[verifier::type_invariant]
    spec fn holds_supported_policy(self) -> bool {
        policy_supported(*self.validation)
    }

    /// The downstream stage.
    pub closed spec fn stage(&self) -> S {
        self.service
    }

    /// The verification key.
    pub closed spec fn key(&self) -> DecodingKey {
        *self.decoding_key
    }

    /// The validation policy.
    pub closed spec fn policy(&self) -> Validation {
        *self.validation
    }

    /// The error mapper.
    pub closed spec fn mapper(&self) -> H {
        *self.err_handler
    }

    /// Whether `response` is what the downstream stage returned for `request`
    /// and `claims`.
    pub open spec fn forwards<Q, R, E>(
        &self,
        request: Q,
        claims: Option<T>,
        response: Response<R, Q, E>,
    ) -> bool where S: Fn(Q, Option<T>) -> R {
        response matches Response::Downstream(returned) && call_ensures(
            self.stage(),
            (request, claims),
            returned,
        )
    }

    /// Whether `response` hands `request` back with a rejection that the
    /// error mapper returns for `error`.
    pub open spec fn answers<Q, R, E>(
        &self,
        request: Q,
        error: JwtDecodeErrors,
        response: Response<R, Q, E>,
    ) -> bool where H: ErrorMapper<E> {
        response matches Response::Local { request: returned, rejection } && returned == request
            && self.mapper().maps(error, rejection)
    }

    /// Whether `response` is what the downstream stage returned for `request`
    /// and some claims.
    pub open spec fn forwards_with_claims<Q, R, E>(
        &self,
        request: Q,
        response: Response<R, Q, E>,
    ) -> bool where S: Fn(Q, Option<T>) -> R {
        exists|claims: T| #[trigger] self.forwards(request, Some(claims), response)
    }

    /// Whether `response` hands `request` back with a rejection that the
    /// error mapper returns for an `InvalidJWTToken`, whatever its cause.
    pub open spec fn answers_refused_token<Q, R, E>(
        &self,
        request: Q,
        response: Response<R, Q, E>,
    ) -> bool where H: ErrorMapper<E> {
        exists|cause: jsonwebtoken::errors::Error| #[trigger]
            self.answers(request, JwtDecodeErrors::InvalidJWTToken(cause), response)
    }

    /// The interceptor around `service` with the given configuration.
    pub(crate) fn bind(
        service: S,
        decoding_key: Arc<DecodingKey>,
        validation: Arc<Validation>,
        err_handler: Arc<H>,
    ) -> (instance: Self)
        requires
            policy_supported(*validation),
        ensures
            instance.stage() == service,
            instance.key() == *decoding_key,
            instance.policy() == *validation,
            instance.mapper() == *err_handler,
    {
        Self { service, decoding_key, validation, err_handler, _token_data_type: PhantomData }
    }

    /// Routes a request once its header has been decoded.
    ///
    /// `decoded` is `None` for a request without authorization header and the
    /// outcome of the decode otherwise. The stage is called once, with the
    /// request as it came, unless the decode failed; then it is not called and
    /// the request comes back with what the error mapper made of the error.
    pub fn dispatch<Q, R, E>(
        &self,
        decoded: Option<Result<T, JwtDecodeErrors>>,
        request: Q,
    ) -> (response: Response<R, Q, E>) where
        S: Fn(Q, Option<T>) -> R,
        H: ErrorMapper<E>,

        requires
            match decoded {
                None => call_requires(self.stage(), (request, None::<T>)),
                Some(Ok(claims)) => call_requires(self.stage(), (request, Some(claims))),
                Some(Err(error)) => self.mapper().accepts(error),
            },
        ensures
            match decoded {
                None => self.forwards(request, None, response),
                Some(Ok(claims)) => self.forwards(request, Some(claims), response),
                Some(Err(error)) => self.answers(request, error, response),
            },
    {
        match decoded {
            None => Response::Downstream((self.service)(request, None)),
            Some(Ok(claims)) => Response::Downstream((self.service)(request, Some(claims))),
            Some(Err(error)) => Response::Local {
                request,
                rejection: self.err_handler.map_error(error),
            },
        }
    }

    /// Handles one request, given the value of its `Authorization` header.
    ///
    /// * No header: the request is forwarded without claims.
    /// * A header that is not text, or text without the `Bearer ` scheme: the
    ///   request is answered with what the error mapper makes of that error.
    /// * Any other header: the codec decides. Either the request is forwarded
    ///   with the claims that the codec decoded, or it is answered with what
    ///   the error mapper makes of an `InvalidJWTToken`.
    ///
    /// A header is decoded once. A forwarded request gets the stage's response
    /// as it is, and a request with a header is forwarded only if the header
    /// passed every check.
    pub fn call<Q, R, E>(
        &self,
        auth_header: Option<&[u8]>,
        request: Q,
    ) -> (response: Response<R, Q, E>) where
        T: DeserializeOwned,
        S: Fn(Q, Option<T>) -> R,
        H: ErrorMapper<E>,

        requires
            forall|claims: Option<T>| call_requires(self.stage(), (request, claims)),
            forall|error: JwtDecodeErrors| self.mapper().accepts(error),
        ensures
            auth_header is None ==> self.forwards(request, None, response),
            (auth_header matches Some(value) && !is_header_text(value@)) ==> self.answers(
                request,
                JwtDecodeErrors::InvalidAuthHeader,
                response,
            ),
            (auth_header matches Some(value) && is_header_text(value@) && !has_bearer_scheme(
                value@,
            )) ==> self.answers(request, JwtDecodeErrors::InvalidJWTHeader, response),
            (auth_header matches Some(value) && carries_token(value@)) ==> (
                self.forwards_with_claims(request, response)
                || self.answers_refused_token(request, response)
            ),
            auth_header matches Some(value) ==> (response is Downstream ==> carries_token(value@)),
    {
        proof {
            use_type_invariant(self);
        }
        let decoded = match auth_header {
            None => None,
            Some(value) => Some(decode_jwt::<T>(value, &self.decoding_key, &self.validation)),
        };
        let ghost outcome = decoded;
        let response = self.dispatch(decoded, request);
        proof {
            match outcome {
                Some(Ok(claims)) => {
                    assert(self.forwards(request, Some(claims), response));
                },
                Some(Err(JwtDecodeErrors::InvalidJWTToken(cause))) => {
                    assert(self.answers(
                        request,
                        JwtDecodeErrors::InvalidJWTToken(cause),
                        response,
                    ));
                },
                _ => {},
            }
        }
        response
    }
}

/// Two interceptors bound from one factory are configured alike: they hold
/// the same key, policy and error mapper, so each header is decoded against
/// the same key and policy by both, and both answer an error alike.
pub proof fn lemma_instances_agree<S1, S2, T, H: ErrorMapper<E>, E, Q, R>(
    factory: JwtMiddleware<T, H>,
    first: JwtService<S1, T, H>,
    second: JwtService<S2, T, H>,
)
    requires
        factory.configures(first),
        factory.configures(second),
    ensures
        first.key() == second.key(),
        first.policy() == second.policy(),
        first.mapper() == second.mapper(),
        forall|request: Q, error: JwtDecodeErrors, response: Response<R, Q, E>|
            first.answers(request, error, response) == second.answers(request, error, response),
{
}

} // verus!
