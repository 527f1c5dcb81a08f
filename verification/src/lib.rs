//! Bearer-token authentication for a request pipeline.
//!
//! An interceptor reads the `Authorization` header of a request, checks that it
//! is text of the form `Bearer <token>`, hands the token to the JSON Web Token
//! codec together with a verification key and a validation policy, and then
//! either forwards the request to the wrapped stage with the decoded claims or
//! answers it with a rejection of its own.
//!
//! # Modules
//!
//! * [`error`] names the three ways a header can fail and renders them.
//! * [`header`] holds the byte-level checks on the header value.
//! * [`codec`] is the boundary to the token codec.
//! * [`mapper`] turns an error into the response that is sent for it.
//! * [`middleware`] is the factory that holds the configuration.
//! * [`service`] is the per-request interceptor bound to one stage.
//!
//! # What is proved
//!
//! Every function is verified against its contract. The contracts say which
//! header values are refused and with which error, that a refused request is
//! handed back with the error mapper's response and nothing else, and that a
//! forwarded request reaches the stage unchanged, with the claims that were
//! decoded for it, and gets the stage's response unchanged.
//!
//! # What is taken on trust
//!
//! Whether a token is well-formed, correctly signed and valid under the
//! policy is decided by `jsonwebtoken`; the contracts hold for every verdict
//! it may return. Beside the call of the codec, the reading of two fields of
//! its policy, `Arc::clone` and `core::str::from_utf8` are specified without
//! proof. Each of them says so where it is declared.

pub mod codec;
pub mod error;
pub mod header;
pub mod mapper;
pub mod middleware;
pub mod service;

pub use codec::decode_jwt;
pub use error::{default_response, ErrorResponse, JwtDecodeErrors};
pub use mapper::{DefaultMapper, ErrorMapper};
pub use middleware::JwtMiddleware;
pub use service::{JwtService, Response};
