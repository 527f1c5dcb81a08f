use jsonwebtoken::errors::ErrorKind;
use jsonwebtoken::{encode, Algorithm, DecodingKey, EncodingKey, Header, Validation};
use jwt_middleware::codec::{is_supported, MAX_LEEWAY};
use jwt_middleware::error::{INVALID_AUTH_HEADER, INVALID_JWT_HEADER};
use jwt_middleware::{JwtDecodeErrors, JwtMiddleware, Response};
use std::cell::{Cell, RefCell};
use std::collections::BTreeMap;
use std::sync::{Arc, Mutex};

type Claims = BTreeMap<String, String>;

fn user(id: &str) -> Claims {
    let mut claims = Claims::new();
    claims.insert("user_id".to_string(), id.to_string());
    claims
}

fn bearer(claims: &Claims, secret: &[u8]) -> Vec<u8> {
    let token = encode(&Header::default(), claims, &EncodingKey::from_secret(secret)).unwrap();
    format!("Bearer {}", token).into_bytes()
}

fn no_expiry() -> Validation {
    let mut policy = Validation::new(Algorithm::HS256);
    policy.validate_exp = false;
    policy.required_spec_claims.clear();
    policy
}

fn factory() -> JwtMiddleware<Claims> {
    JwtMiddleware::new(DecodingKey::from_secret(b"s3cr3t"), no_expiry())
}

/// A downstream handler that answers with the user id it finds in the claims.
fn user_id(_request: &str, claims: Option<Claims>) -> String {
    match claims {
        Some(claims) => claims["user_id"].clone(),
        None => "anonymous".to_string(),
    }
}

#[test]
fn request_without_header_is_forwarded_without_claims() {
    let seen = RefCell::new(Vec::new());
    let service = factory().new_transform(|request: &str, claims: Option<Claims>| {
        seen.borrow_mut().push((request.to_string(), claims));
        "downstream"
    });
    let response = service.call(None, "GET /");
    assert!(matches!(response, Response::Downstream("downstream")));
    assert_eq!(*seen.borrow(), vec![("GET /".to_string(), None)]);
}

#[test]
fn valid_token_is_forwarded_once_with_its_claims() {
    let calls = Cell::new(0);
    let seen = RefCell::new(None);
    let service = factory().new_transform(|request: &str, claims: Option<Claims>| {
        calls.set(calls.get() + 1);
        *seen.borrow_mut() = claims;
        format!("served {}", request)
    });
    let header = bearer(&user("42"), b"s3cr3t");
    let response = service.call(Some(&header), "GET /me");
    match response {
        Response::Downstream(body) => assert_eq!(body, "served GET /me"),
        other => panic!("{:?}", other),
    }
    assert_eq!(calls.get(), 1);
    assert_eq!(*seen.borrow(), Some(user("42")));
}

#[test]
fn bearer_token_scenario() {
    let service = factory().new_transform(user_id);

    let header = bearer(&user("42"), b"s3cr3t");
    match service.call(Some(&header), "GET /me") {
        Response::Downstream(body) => assert_eq!(body, "42"),
        other => panic!("{:?}", other),
    }

    let header = bearer(&user("42"), b"wrong-secret");
    match service.call(Some(&header), "GET /me") {
        Response::Local { request, rejection } => {
            assert_eq!(request, "GET /me");
            assert_eq!(rejection.status, 400);
            assert!(rejection.body.contains("Invalid JWT token"), "{}", rejection.body);
            assert_eq!(
                rejection.body,
                "Invalid JWT token - an error occurred when decoding token: InvalidSignature"
            );
        }
        other => panic!("{:?}", other),
    }
}

#[test]
fn header_that_is_not_text_is_answered_without_calling_downstream() {
    let calls = Cell::new(0);
    let service = factory().new_transform(|_request: u32, _claims: Option<Claims>| {
        calls.set(calls.get() + 1);
    });
    match service.call(Some(b"Bearer \xc3\xa9"), 7) {
        Response::Local { request, rejection } => {
            assert_eq!(request, 7);
            assert_eq!(rejection.status, 400);
            assert_eq!(rejection.body, INVALID_AUTH_HEADER);
        }
        other => panic!("{:?}", other),
    }
    assert_eq!(calls.get(), 0);
}

#[test]
fn header_without_bearer_scheme_is_answered_without_calling_downstream() {
    let calls = Cell::new(0);
    let service = factory().new_transform(|_request: u32, _claims: Option<Claims>| {
        calls.set(calls.get() + 1);
    });
    for value in [&b"bearer abc.def.ghi"[..], &b"BearerXabc.def.ghi"[..], &b"Basic dXNlcg=="[..]] {
        match service.call(Some(value), 7) {
            Response::Local { request, rejection } => {
                assert_eq!(request, 7);
                assert_eq!(rejection.status, 400);
                assert_eq!(rejection.body, INVALID_JWT_HEADER);
            }
            other => panic!("{:?}", other),
        }
    }
    assert_eq!(calls.get(), 0);
}

#[test]
fn refused_token_is_answered_without_calling_downstream() {
    let calls = Cell::new(0);
    let service = factory().new_transform(|_request: u32, _claims: Option<Claims>| {
        calls.set(calls.get() + 1);
    });
    let header = bearer(&user("42"), b"wrong-secret");
    assert!(matches!(service.call(Some(&header), 7), Response::Local { request: 7, .. }));
    assert!(matches!(service.call(Some(b"Bearer abc.def.ghi"), 8), Response::Local { request: 8, .. }));
    assert_eq!(calls.get(), 0);
}

#[test]
fn custom_mapper_gets_the_error_and_its_value_is_the_rejection() {
    let service = factory()
        .error_handler(|error: JwtDecodeErrors| {
            let name = match &error {
                JwtDecodeErrors::InvalidAuthHeader => "auth-header".to_string(),
                JwtDecodeErrors::InvalidJWTHeader => "jwt-header".to_string(),
                JwtDecodeErrors::InvalidJWTToken(cause) => format!("token:{:?}", cause.kind()),
            };
            (401u16, name)
        })
        .new_transform(user_id);

    match service.call(Some(b"Bearer \xff"), "a") {
        Response::Local { request, rejection } => {
            assert_eq!(request, "a");
            assert_eq!(rejection, (401, "auth-header".to_string()));
        }
        other => panic!("{:?}", other),
    }
    match service.call(Some(b"Basic abc"), "b") {
        Response::Local { rejection, .. } => {
            assert_eq!(rejection, (401, "jwt-header".to_string()))
        }
        other => panic!("{:?}", other),
    }
    let header = bearer(&user("42"), b"wrong-secret");
    match service.call(Some(&header), "c") {
        Response::Local { rejection, .. } => {
            assert_eq!(rejection, (401, "token:InvalidSignature".to_string()))
        }
        other => panic!("{:?}", other),
    }
    let header = bearer(&user("42"), b"s3cr3t");
    assert!(matches!(service.call(Some(&header), "d"), Response::Downstream(body) if body == "42"));
    assert!(matches!(service.call(None, "e"), Response::Downstream(body) if body == "anonymous"));
}

#[test]
fn custom_mapper_is_called_once_per_refused_request() {
    let calls = Arc::new(Mutex::new(0u32));
    let counter = Arc::clone(&calls);
    let service = factory()
        .error_handler(move |error: JwtDecodeErrors| {
            *counter.lock().unwrap() += 1;
            error.to_error_string()
        })
        .new_transform(user_id);
    assert!(matches!(service.call(None, "a"), Response::Downstream(_)));
    assert_eq!(*calls.lock().unwrap(), 0);
    match service.call(Some(b"nonsense"), "b") {
        Response::Local { rejection, .. } => assert_eq!(rejection, INVALID_JWT_HEADER),
        other => panic!("{:?}", other),
    }
    assert_eq!(*calls.lock().unwrap(), 1);
}

#[test]
fn later_mapper_replaces_the_earlier_one() {
    let service = factory()
        .error_handler(|_error: JwtDecodeErrors| 1u8)
        .error_handler(|_error: JwtDecodeErrors| 2u8)
        .new_transform(user_id);
    assert!(matches!(
        service.call(Some(b"nonsense"), "a"),
        Response::Local { rejection: 2, .. }
    ));
}

#[test]
fn instances_of_one_factory_decide_alike() {
    let factory = factory();
    let first = factory.new_transform(user_id);
    let second = factory.new_transform(|_request: &str, claims: Option<Claims>| {
        claims.map(|claims| claims["user_id"].clone()).unwrap_or_default()
    });
    let good = bearer(&user("42"), b"s3cr3t");
    let forged = bearer(&user("42"), b"wrong-secret");
    let headers: [&[u8]; 5] = [&good, &forged, b"Bearer \xff", b"bearer x", b"Bearer a.b.c"];
    for header in headers {
        let a = first.call(Some(header), "r");
        let b = second.call(Some(header), "r");
        match (a, b) {
            (Response::Downstream(a), Response::Downstream(b)) => {
                assert_eq!(a, "42");
                assert_eq!(b, "42");
            }
            (
                Response::Local { request: ra, rejection: a },
                Response::Local { request: rb, rejection: b },
            ) => {
                assert_eq!(ra, rb);
                assert_eq!(a, b);
            }
            (a, b) => panic!("{:?} / {:?}", a, b),
        }
    }
}

#[test]
fn factory_is_left_as_it_was_by_binding() {
    let factory = factory();
    let header = bearer(&user("7"), b"s3cr3t");
    for _ in 0..3 {
        let service = factory.new_transform(user_id);
        assert!(matches!(service.call(Some(&header), "r"), Response::Downstream(body) if body == "7"));
    }
}

#[test]
fn key_of_the_factory_is_the_key_that_verifies() {
    let other = JwtMiddleware::<Claims>::new(DecodingKey::from_secret(b"another"), no_expiry())
        .new_transform(user_id);
    let header = bearer(&user("42"), b"s3cr3t");
    assert!(matches!(other.call(Some(&header), "r"), Response::Local { .. }));
    let header = bearer(&user("42"), b"another");
    assert!(matches!(other.call(Some(&header), "r"), Response::Downstream(body) if body == "42"));
}

#[test]
fn policy_of_the_factory_is_the_policy_that_validates() {
    let strict = JwtMiddleware::<Claims>::new(
        DecodingKey::from_secret(b"s3cr3t"),
        Validation::new(Algorithm::HS256),
    )
    .error_handler(|error: JwtDecodeErrors| match error {
        JwtDecodeErrors::InvalidJWTToken(cause) => cause.into_kind(),
        other => panic!("{:?}", other),
    })
    .new_transform(user_id);
    let header = bearer(&user("42"), b"s3cr3t");
    assert!(matches!(
        strict.call(Some(&header), "r"),
        Response::Local { rejection: ErrorKind::MissingRequiredClaim(_), .. }
    ));
}

#[test]
fn supported_policies() {
    assert!(is_supported(&Validation::new(Algorithm::HS256)));
    assert!(is_supported(&no_expiry()));

    let mut policy = no_expiry();
    policy.leeway = MAX_LEEWAY;
    assert!(is_supported(&policy));
    policy.leeway = MAX_LEEWAY + 1;
    assert!(!is_supported(&policy));
    policy.leeway = u64::MAX;
    assert!(!is_supported(&policy));

    let mut policy = no_expiry();
    policy.reject_tokens_expiring_in_less_than = 1;
    assert!(!is_supported(&policy));
    policy.reject_tokens_expiring_in_less_than = 0;
    policy.leeway = 0;
    assert!(is_supported(&policy));
}

#[test]
fn try_new_refuses_what_the_codec_cannot_compute() {
    let key = || DecodingKey::from_secret(b"s3cr3t");
    assert!(JwtMiddleware::<Claims>::try_new(key(), no_expiry()).is_some());

    let mut policy = no_expiry();
    policy.leeway = MAX_LEEWAY + 1;
    assert!(JwtMiddleware::<Claims>::try_new(key(), policy).is_none());

    let mut policy = no_expiry();
    policy.reject_tokens_expiring_in_less_than = 30;
    assert!(JwtMiddleware::<Claims>::try_new(key(), policy).is_none());
}

#[test]
fn try_new_builds_the_factory_that_new_builds() {
    let service = JwtMiddleware::<Claims>::try_new(DecodingKey::from_secret(b"s3cr3t"), no_expiry())
        .unwrap()
        .new_transform(user_id);
    let header = bearer(&user("42"), b"s3cr3t");
    assert!(matches!(service.call(Some(&header), "r"), Response::Downstream(body) if body == "42"));
    assert!(matches!(service.call(None, "r"), Response::Downstream(body) if body == "anonymous"));
}
