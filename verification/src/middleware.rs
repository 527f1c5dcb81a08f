//! The interceptor factory: the configuration that every interceptor bound
//! from it shares.

use std::marker::PhantomData;
use std::sync::Arc;

use jsonwebtoken::{DecodingKey, Validation};
use vstd::prelude::*;

use crate::codec::{is_supported, policy_supported};
use crate::error::JwtDecodeErrors;
use crate::mapper::{DefaultMapper, ErrorMapper};
use crate::service::JwtService;

verus! {

/// `Arc::clone`: one more pointer to the value that `pointer` points to. The
/// value itself is not copied.
#[verifier::external_body]
fn share<V>(pointer: &Arc<V>) -> (shared: Arc<V>)
    ensures
        shared == *pointer,
{
    Arc::clone(pointer)
}

/// Configuration of the interceptor: the verification key, the validation
/// policy and the error mapper.
///
/// `T` is the type that the claims of a token are decoded into and `H` the
/// type of the error mapper. Nothing is changed after construction; the
/// interceptors bound from one factory point to the same key, policy and mapper.
pub struct JwtMiddleware<T, H = DefaultMapper> {
    decoding_key: Arc<DecodingKey>,
    validation: Arc<Validation>,
    err_handler: Arc<H>,
    _token_data_type: PhantomData<T>,
}

impl<T> JwtMiddleware<T, DefaultMapper> {
    /// A factory with the given key and policy and the default error mapper.
    ///
    /// The policy must be one that the codec can be called with, see
    /// [`policy_supported`]; [`JwtMiddleware::try_new`] tests that first.
    pub fn new(decoding_key: DecodingKey, validation: Validation) -> (factory: Self)
        requires
            policy_supported(validation),
        ensures
            factory.key() == decoding_key,
            factory.policy() == validation,
            factory.mapper() == DefaultMapper,
    {
        Self {
            decoding_key: Arc::new(decoding_key),
            validation: Arc::new(validation),
            err_handler: Arc::new(DefaultMapper),
            _token_data_type: PhantomData,
        }
    }

    /// [`JwtMiddleware::new`] for a policy that has not been looked at yet:
    /// `None` if the codec cannot be called with it.
    pub fn try_new(decoding_key: DecodingKey, validation: Validation) -> (factory: Option<Self>)
        ensures
            factory is Some <==> policy_supported(validation),
            factory matches Some(f) ==> f.key() == decoding_key && f.policy() == validation
                && f.mapper() == DefaultMapper,
    {
        if is_supported(&validation) {
            Some(Self::new(decoding_key, validation))
        } else {
            None
        }
    }
}

impl<T, H> JwtMiddleware<T, H> {
    #[verifier::type_invariant]
    spec fn holds_supported_policy(self) -> bool {
        policy_supported(*self.validation)
    }

    /// The verification key.
    pub closed spec fn key(&self) -> DecodingKey {
        *self.decoding_key
    }

    /// The validation policy.
    pub closed spec fn policy(&self) -> Validation {
        *self.validation
    }

    /// The error mapper.
    pub closed spec fn mapper(&self) -> H {
        *self.err_handler
    }

    /// Whether `instance` holds the key, the policy and the mapper of this
    /// factory.
    pub open spec fn configures<S>(&self, instance: JwtService<S, T, H>) -> bool {
        &&& instance.key() == self.key()
        &&& instance.policy() == self.policy()
        &&& instance.mapper() == self.mapper()
    }

    /// The same factory with the function `f` installed as error mapper in
    /// place of the one it had. The new mapper accepts what `f` accepts and
    /// returns what `f` returns.
    pub fn error_handler<F, E>(self, f: F) -> (factory: JwtMiddleware<T, F>) where
        F: Fn(JwtDecodeErrors) -> E + Send + Sync + 'static,

        ensures
            factory.key() == self.key(),
            factory.policy() == self.policy(),
            factory.mapper() == f,
            forall|error: JwtDecodeErrors| #[trigger]
                f.accepts(error) <==> call_requires(f, (error,)),
            forall|error: JwtDecodeErrors, response: E| #[trigger]
                f.maps(error, response) <==> call_ensures(f, (error,), response),
    {
        proof {
            use_type_invariant(&self);
        }
        JwtMiddleware {
            decoding_key: self.decoding_key,
            validation: self.validation,
            err_handler: Arc::new(f),
            _token_data_type: PhantomData,
        }
    }

    /// An interceptor around `service` that shares this factory's
    /// configuration. Binding cannot fail and leaves the factory as it was.
    pub fn new_transform<S>(&self, service: S) -> (instance: JwtService<S, T, H>)
        ensures
            self.configures(instance),
            instance.stage() == service,
    {
        proof {
            use_type_invariant(self);
        }
        JwtService::bind(
            service,
            share(&self.decoding_key),
            share(&self.validation),
            share(&self.err_handler),
        )
    }
}

} // verus!
