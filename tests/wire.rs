use aziot_keys::client::{decimal_of, decode_response, encode_request, Client, Method, ResponseBody, ResponseError};
use aziot_keys::engine::{CreateKeyValue, RsaPkcs1MessageDigest, RsaPssMaskGenerationFunction, SignMechanism};
use aziot_keys::error::KeygenError;
use aziot_keys::handle::{KeyHandle, KeyKind};
use aziot_keys::location::KeyStoreConfig;
use aziot_keys::server::{route, status_of, Endpoint, Rejection, Routing};
use aziot_keys::wire::{create_key_request, create_key_value, sign_mechanism, sign_parameters, SignParameters};
use aziot_keys::{engine, symmetric};

#[test]
fn request_with_body_is_framed() {
    let r = encode_request(Method::Post, "/sign", Some("{\"a\":1}"));
    assert_eq!(
        String::from_utf8(r).unwrap(),
        "POST /sign HTTP/1.1\r\ncontent-length: 7\r\ncontent-type: application/json\r\nconnection: close\r\n\r\n{\"a\":1}"
    );
}

#[test]
fn request_without_body_is_framed() {
    let r = encode_request(Method::Get, "/keypair/k%201", None);
    assert_eq!(String::from_utf8(r).unwrap(), "GET /keypair/k%201 HTTP/1.1\r\nconnection: close\r\n\r\n");
}

#[test]
fn decimal_text() {
    assert_eq!(decimal_of(0), b"0".to_vec());
    assert_eq!(decimal_of(1234), b"1234".to_vec());
    assert_eq!(decimal_of(usize::MAX), usize::MAX.to_string().into_bytes());
}

#[test]
fn success_response_is_bounded_by_content_length() {
    let buf = b"HTTP/1.1 200 OK\r\nContent-Type: application/json\r\nContent-Length: 2\r\n\r\n{}trailing";
    match decode_response(buf).unwrap() {
        ResponseBody::Success(b) => assert_eq!(b, b"{}".to_vec()),
        ResponseBody::Failure(_) => panic!("expected success"),
    }
}

#[test]
fn success_response_without_length_reads_to_end() {
    let buf = b"HTTP/1.1 200 OK\r\ncontent-type: application/json\r\n\r\n{\"handle\":\"x\"}";
    match decode_response(buf).unwrap() {
        ResponseBody::Success(b) => assert_eq!(b, b"{\"handle\":\"x\"}".to_vec()),
        ResponseBody::Failure(_) => panic!("expected success"),
    }
}

#[test]
fn error_response_carries_body() {
    let buf = b"HTTP/1.1 404 Not Found\r\ncontent-type: application/json\r\ncontent-length: 16\r\n\r\n{\"message\":\"no\"}";
    match decode_response(buf).unwrap() {
        ResponseBody::Failure(b) => assert_eq!(b, b"{\"message\":\"no\"}".to_vec()),
        ResponseBody::Success(_) => panic!("expected failure"),
    }
}

#[test]
fn malformed_responses() {
    let not_json = b"HTTP/1.1 200 OK\r\ncontent-type: text/plain\r\n\r\nhi";
    assert_eq!(decode_response(not_json).err(), Some(ResponseError::Malformed));
    let redirect = b"HTTP/1.1 302 Found\r\ncontent-type: application/json\r\n\r\n{}";
    assert_eq!(decode_response(redirect).err(), Some(ResponseError::Malformed));
    let short = b"HTTP/1.1 200 OK\r\ncontent-type: application/json\r\ncontent-length: 10\r\n\r\n{}";
    assert_eq!(decode_response(short).err(), Some(ResponseError::UnexpectedEof));
    let partial = b"HTTP/1.1 200 OK\r\ncontent-type: appl";
    assert_eq!(decode_response(partial).err(), Some(ResponseError::UnexpectedEof));
    let bad_length = b"HTTP/1.1 200 OK\r\ncontent-type: application/json\r\ncontent-length: x\r\n\r\n{}";
    assert_eq!(decode_response(bad_length).err(), Some(ResponseError::Malformed));
    let garbage = b"NOT HTTP\r\n\r\n";
    assert_eq!(decode_response(garbage).err(), Some(ResponseError::Malformed));
}

#[test]
fn unmatched_path_falls_through_to_not_found() {
    for m in [Method::Get, Method::Post, Method::Delete] {
        match route(m, "/nothing/here", Some("application/json")) {
            Routing::Reject(r) => {
                assert_eq!(r, Rejection::NotFound);
                assert_eq!(r.status(), 404);
            },
            Routing::Dispatch { .. } => panic!("no handler should claim this path"),
        }
    }
    assert!(matches!(route(Method::Get, "/keypair/a/b", None), Routing::Reject(Rejection::NotFound)));
    assert!(matches!(route(Method::Get, "/keypair/", None), Routing::Reject(Rejection::NotFound)));
}

#[test]
fn load_key_pair_path_is_decoded() {
    match route(Method::Get, "/keypair/device%20id", None) {
        Routing::Dispatch { endpoint, segment } => {
            assert_eq!(endpoint, Endpoint::LoadKeyPair);
            assert_eq!(segment.as_deref(), Some("device id"));
        },
        Routing::Reject(r) => panic!("rejected: {:?}", r),
    }
    assert!(matches!(route(Method::Get, "/keypair/%ff", None), Routing::Reject(Rejection::BadPath)));
    assert_eq!(Rejection::BadPath.status(), 400);
    assert!(matches!(
        route(Method::Post, "/keypair/k", Some("application/json")),
        Routing::Reject(Rejection::MethodNotAllowed(Method::Get))
    ));
}

#[test]
fn sign_route_checks_method_and_content_type() {
    assert!(matches!(
        route(Method::Post, "/sign", Some("application/json")),
        Routing::Dispatch { endpoint: Endpoint::Sign, segment: None }
    ));
    let r = route(Method::Get, "/sign", Some("application/json"));
    assert!(matches!(r, Routing::Reject(Rejection::MethodNotAllowed(Method::Post))));
    assert_eq!(Rejection::MethodNotAllowed(Method::Post).status(), 405);
    assert!(matches!(route(Method::Post, "/sign", Some("text/plain")), Routing::Reject(Rejection::UnsupportedMediaType)));
    assert!(matches!(route(Method::Post, "/sign", None), Routing::Reject(Rejection::UnsupportedMediaType)));
    assert_eq!(Rejection::UnsupportedMediaType.status(), 415);
    assert!(matches!(
        route(Method::Post, "/parameters/algorithm", Some("application/json")),
        Routing::Dispatch { endpoint: Endpoint::GetKeyPairPublicParameter, .. }
    ));
}

#[test]
fn error_statuses() {
    assert_eq!(status_of(KeygenError::InvalidParameter), 400);
    assert_eq!(status_of(KeygenError::NotImplemented), 400);
    assert_eq!(status_of(KeygenError::External), 500);
    assert_eq!(status_of(KeygenError::NotFound), 404);
}

#[test]
fn sign_parameters_for_each_mechanism() {
    match sign_parameters(SignMechanism::RsaPkcs1 { message_digest: RsaPkcs1MessageDigest::Sha384 }, b"d").unwrap() {
        SignParameters::RsaPkcs1 { message_digest_algorithm, message } => {
            assert_eq!(message_digest_algorithm, "sha384");
            assert_eq!(message, b"d".to_vec());
        },
        other => panic!("unexpected {:?}", other),
    }
    let pss = SignMechanism::RsaPss { mask_generation_function: RsaPssMaskGenerationFunction::Sha1, salt_len: 0 };
    assert_eq!(sign_parameters(pss, b"d").unwrap_err(), KeygenError::NotImplemented);
    let unknown = SignParameters::RsaPkcs1 { message_digest_algorithm: "md5".to_owned(), message: vec![] };
    assert!(sign_mechanism(&unknown).is_none());
    let (m, msg) = sign_mechanism(&SignParameters::HmacSha256 { message: vec![1, 2] }).unwrap();
    assert_eq!(m, SignMechanism::HmacSha256);
    assert_eq!(msg, vec![1, 2]);
}

#[test]
fn create_key_bodies() {
    let r = create_key_request("k1", CreateKeyValue::Generate { length: 32 });
    assert_eq!(r.id, "k1");
    assert_eq!(r.generate_key_len, Some(32));
    assert!(r.import_key_bytes.is_none());
    assert!(matches!(create_key_value(&r), Ok(CreateKeyValue::Generate { length: 32 })));
    let mut both = r.clone();
    both.import_key_bytes = Some(vec![1]);
    assert_eq!(create_key_value(&both).unwrap_err(), KeygenError::InvalidParameter);
}

#[test]
fn key_then_sign_over_the_wire_verifies() {
    // POST /key with a generated 32-byte key, then POST /sign with HMAC-SHA256.
    let mut config = KeyStoreConfig::new();
    config.set_parameter("HOMEDIR_PATH", Some("/keys")).unwrap();
    assert!(matches!(route(Method::Post, "/key", Some("application/json")), Routing::Dispatch { endpoint: Endpoint::CreateKey, .. }));
    let create = create_key_request("k1", CreateKeyValue::Generate { length: 32 });
    let value = create_key_value(&create).unwrap();
    let plan = engine::plan_create(&config, b"sealing key", KeyKind::Key, &create.id, false).unwrap();
    assert!(plan.generate);
    let key = symmetric::key_material(&value).unwrap();

    assert!(matches!(route(Method::Post, "/sign", Some("application/json")), Routing::Dispatch { endpoint: Endpoint::Sign, .. }));
    let handle = KeyHandle(plan.handle.0.clone());
    let params = sign_parameters(SignMechanism::HmacSha256, b"payload").unwrap();
    let (mechanism, message) = sign_mechanism(&params).unwrap();
    assert!(engine::sign_target(&config, b"sealing key", &handle, mechanism).is_ok());
    let signature = symmetric::sign(&key, &message).unwrap();

    assert!(symmetric::verify(&key, b"payload", &signature).unwrap());
    let mut flipped = signature.clone();
    flipped[0] ^= 0x80;
    assert!(!symmetric::verify(&key, b"payload", &flipped).unwrap());
}

#[test]
fn client_keeps_its_connector() {
    let c = Client::new(42u32);
    assert_eq!(*c.connector(), 42);
}
