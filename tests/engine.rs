use aziot_keys::abi::{
    digest_from_code, encrypt_route, fill_output, negotiate_version, sign_mechanism_from_code, sign_route,
    verify_route, OutputBuffer, KEYGEN_ENCRYPT_MECHANISM_AEAD, KEYGEN_RSA_PKCS1_DIGEST_SHA1,
    KEYGEN_RSA_PKCS1_DIGEST_SHA384, KEYGEN_RSA_PKCS1_DIGEST_SHA512, KEYGEN_SIGN_MECHANISM_ECDSA,
    KEYGEN_SIGN_MECHANISM_HMAC_SHA256, KEYGEN_SIGN_MECHANISM_RSA_PKCS1, KEYGEN_SIGN_MECHANISM_RSA_PSS,
    KEYGEN_VERSION_2_0_0_0,
};
use aziot_keys::engine::{plan_create, sign_target, target, RsaPkcs1MessageDigest, RsaPssMaskGenerationFunction, SignMechanism};
use aziot_keys::error::{code_of, ErrorCode, KeygenError, PolicyError};
use aziot_keys::handle::{authenticate, KeyHandle, KeyKind};

const HK: &[u8] = b"sealing key for tests";
use aziot_keys::location::{KeyStoreConfig, Location};
use aziot_keys::symmetric;

fn home_config() -> KeyStoreConfig {
    let mut c = KeyStoreConfig::new();
    c.set_parameter("HOMEDIR_PATH", Some("/keys")).unwrap();
    c
}

#[test]
fn handles_round_trip() {
    let h = KeyHandle::new(KeyKind::KeyPair, "device-id", HK).unwrap();
    assert_eq!(h.0, "keypair:device-id.52bcf9343619cea2637afed7e1318a46880d3d9725619954e70a875660a09ec6");
    assert_eq!(h.claim().unwrap(), (KeyKind::KeyPair, "device-id".to_owned(), "52bcf9343619cea2637afed7e1318a46880d3d9725619954e70a875660a09ec6".to_owned()));
    let h = KeyHandle::new(KeyKind::Key, "k1.v2", HK).unwrap();
    assert_eq!(h.0, "key:k1.v2.c8d6b9a0c264d031120aa49856b2d820cac44b603921f1085dd0c1391a0739fb");
    let (kind, id, mac) = h.claim().unwrap();
    assert_eq!((kind, id.as_str()), (KeyKind::Key, "k1.v2"));
    assert!(authenticate(HK, kind, &id, &mac).unwrap());
    assert!(!authenticate(b"another key", kind, &id, &mac).unwrap());
    assert_eq!(KeyHandle("bogus".to_owned()).claim().unwrap_err(), KeygenError::InvalidParameter);
    assert_eq!(KeyHandle("key:k1".to_owned()).claim().unwrap_err(), KeygenError::InvalidParameter);
}

#[test]
fn forged_handles_are_refused() {
    let c = home_config();
    let forged = KeyHandle("key:k1.00".to_owned());
    assert_eq!(target(&c, HK, &forged, KeyKind::Key).unwrap_err(), KeygenError::InvalidParameter);
    let other = KeyHandle::new(KeyKind::Key, "k1", b"another key").unwrap();
    assert_eq!(target(&c, HK, &other, KeyKind::Key).unwrap_err(), KeygenError::InvalidParameter);
    let genuine = KeyHandle::new(KeyKind::Key, "k1", HK).unwrap();
    let renamed = KeyHandle(genuine.0.replacen("k1", "k2", 1));
    assert_eq!(target(&c, HK, &renamed, KeyKind::Key).unwrap_err(), KeygenError::InvalidParameter);
    assert!(target(&c, HK, &genuine, KeyKind::Key).is_ok());
}

#[test]
fn hmac_on_key_pair_handle_is_refused() {
    // No backend is configured: a refusal that reached resolution would be a policy error.
    let c = KeyStoreConfig::new();
    let pair = KeyHandle::new(KeyKind::KeyPair, "device-id", HK).unwrap();
    assert_eq!(sign_target(&c, HK, &pair, SignMechanism::HmacSha256).unwrap_err(), KeygenError::InvalidParameter);
    let key = KeyHandle::new(KeyKind::Key, "k1", HK).unwrap();
    assert_eq!(sign_target(&c, HK, &key, SignMechanism::Ecdsa).unwrap_err(), KeygenError::InvalidParameter);
    assert_eq!(
        sign_target(&c, HK, &key, SignMechanism::HmacSha256).unwrap_err(),
        KeygenError::Policy(PolicyError::NoWayToCreateKeys)
    );
}

#[test]
fn rsa_pss_is_not_implemented() {
    let c = home_config();
    let pair = KeyHandle::new(KeyKind::KeyPair, "device-id", HK).unwrap();
    let pss = SignMechanism::RsaPss { mask_generation_function: RsaPssMaskGenerationFunction::Sha256, salt_len: 32 };
    assert_eq!(sign_target(&c, HK, &pair, pss).unwrap_err(), KeygenError::NotImplemented);
    let pkcs1 = SignMechanism::RsaPkcs1 { message_digest: RsaPkcs1MessageDigest::Sha256 };
    assert!(matches!(sign_target(&c, HK, &pair, pkcs1), Ok(Location::Filesystem(_))));
    assert_eq!(code_of(Err(KeygenError::NotImplemented)), ErrorCode::InvalidParameter);
}

#[test]
fn error_codes() {
    assert_eq!(code_of(Ok(())), ErrorCode::Success);
    assert_eq!(code_of(Err(KeygenError::External)), ErrorCode::External);
    assert_eq!(code_of(Err(KeygenError::Policy(PolicyError::NoWayToCreateKeys))), ErrorCode::InvalidParameter);
}

#[test]
fn target_checks_family() {
    let c = home_config();
    let key = KeyHandle::new(KeyKind::Key, "k1", HK).unwrap();
    assert!(target(&c, HK, &key, KeyKind::Key).is_ok());
    assert_eq!(target(&c, HK, &key, KeyKind::KeyPair).unwrap_err(), KeygenError::InvalidParameter);
}

#[test]
fn create_twice_reuses_key() {
    let c = home_config();
    let first = plan_create(&c, HK, KeyKind::KeyPair, "device-id", false).unwrap();
    assert!(first.generate);
    let second = plan_create(&c, HK, KeyKind::KeyPair, "device-id", true).unwrap();
    assert!(!second.generate);
    assert_eq!(first.handle.0, second.handle.0);
    match (first.location, second.location) {
        (Location::Filesystem(a), Location::Filesystem(b)) => assert_eq!(a, b),
        _ => panic!("expected file locations"),
    }
    assert!(plan_create(&KeyStoreConfig::new(), HK, KeyKind::Key, "x", false).is_err());
}

#[test]
fn boundary_routes() {
    let c = home_config();
    let pair = KeyHandle::new(KeyKind::KeyPair, "k", HK).unwrap();
    let key = KeyHandle::new(KeyKind::Key, "k", HK).unwrap();
    assert!(matches!(sign_route(&c, HK, &pair, KEYGEN_SIGN_MECHANISM_ECDSA, None), Ok((_, SignMechanism::Ecdsa))));
    assert!(matches!(
        sign_route(&c, HK, &pair, KEYGEN_SIGN_MECHANISM_RSA_PKCS1, Some(KEYGEN_RSA_PKCS1_DIGEST_SHA384)),
        Ok((_, SignMechanism::RsaPkcs1 { message_digest: RsaPkcs1MessageDigest::Sha384 }))
    ));
    assert_eq!(sign_route(&c, HK, &pair, KEYGEN_SIGN_MECHANISM_RSA_PKCS1, None).unwrap_err(), KeygenError::InvalidParameter);
    assert_eq!(sign_route(&c, HK, &pair, KEYGEN_SIGN_MECHANISM_RSA_PKCS1, Some(9)).unwrap_err(), KeygenError::InvalidParameter);
    assert!(matches!(sign_route(&c, HK, &key, KEYGEN_SIGN_MECHANISM_HMAC_SHA256, None), Ok((_, SignMechanism::HmacSha256))));
    assert_eq!(sign_route(&c, HK, &pair, KEYGEN_SIGN_MECHANISM_RSA_PSS, None).unwrap_err(), KeygenError::NotImplemented);
    assert_eq!(sign_route(&c, HK, &pair, 99, None).unwrap_err(), KeygenError::InvalidParameter);
    assert_eq!(verify_route(&c, HK, &key, KEYGEN_SIGN_MECHANISM_ECDSA).unwrap_err(), KeygenError::InvalidParameter);
    assert!(verify_route(&c, HK, &key, KEYGEN_SIGN_MECHANISM_HMAC_SHA256).is_ok());
    assert!(encrypt_route(&c, HK, &key, KEYGEN_ENCRYPT_MECHANISM_AEAD).is_ok());
    assert_eq!(encrypt_route(&c, HK, &key, 7).unwrap_err(), KeygenError::InvalidParameter);
    assert_eq!(sign_route(&c, HK, &KeyHandle("k".to_owned()), KEYGEN_SIGN_MECHANISM_ECDSA, None).unwrap_err(), KeygenError::InvalidParameter);
}

#[test]
fn boundary_refuses_mechanism_of_other_kind() {
    // Nothing is configured: a call that reached resolution would fail with a policy error.
    let c = KeyStoreConfig::new();
    let pair = KeyHandle::new(KeyKind::KeyPair, "device-id", HK).unwrap();
    let key = KeyHandle::new(KeyKind::Key, "k1", HK).unwrap();
    assert_eq!(sign_route(&c, HK, &pair, KEYGEN_SIGN_MECHANISM_HMAC_SHA256, None).unwrap_err(), KeygenError::InvalidParameter);
    assert_eq!(sign_route(&c, HK, &key, KEYGEN_SIGN_MECHANISM_ECDSA, None).unwrap_err(), KeygenError::InvalidParameter);
    assert_eq!(verify_route(&c, HK, &pair, KEYGEN_SIGN_MECHANISM_HMAC_SHA256).unwrap_err(), KeygenError::InvalidParameter);
    assert_eq!(encrypt_route(&c, HK, &pair, KEYGEN_ENCRYPT_MECHANISM_AEAD).unwrap_err(), KeygenError::InvalidParameter);
    assert_eq!(
        sign_route(&c, HK, &key, KEYGEN_SIGN_MECHANISM_HMAC_SHA256, None).unwrap_err(),
        KeygenError::Policy(PolicyError::NoWayToCreateKeys)
    );
}

#[test]
fn boundary_mechanism_codes() {
    assert_eq!(sign_mechanism_from_code(KEYGEN_SIGN_MECHANISM_ECDSA, None), Ok(SignMechanism::Ecdsa));
    assert_eq!(
        sign_mechanism_from_code(KEYGEN_SIGN_MECHANISM_RSA_PKCS1, Some(KEYGEN_RSA_PKCS1_DIGEST_SHA1)),
        Ok(SignMechanism::RsaPkcs1 { message_digest: RsaPkcs1MessageDigest::Sha1 })
    );
    assert_eq!(sign_mechanism_from_code(KEYGEN_SIGN_MECHANISM_RSA_PSS, None), Err(KeygenError::NotImplemented));
    assert_eq!(sign_mechanism_from_code(KEYGEN_SIGN_MECHANISM_HMAC_SHA256, None), Ok(SignMechanism::HmacSha256));
    assert_eq!(sign_mechanism_from_code(0, None), Err(KeygenError::InvalidParameter));
    assert_eq!(digest_from_code(KEYGEN_RSA_PKCS1_DIGEST_SHA512), Some(RsaPkcs1MessageDigest::Sha512));
    assert_eq!(digest_from_code(6), None);
}

#[test]
fn version_negotiation() {
    assert!(negotiate_version(KEYGEN_VERSION_2_0_0_0).is_ok());
    assert_eq!(negotiate_version(0x01000000).unwrap_err(), KeygenError::InvalidParameter);
}

#[test]
fn two_phase_signature_buffer() {
    let signature = symmetric::sign(&[1u8; 32], b"hello").unwrap();
    let mut out = OutputBuffer { data: None, len: 0 };
    assert!(fill_output(&signature, &mut out).is_ok());
    assert_eq!(out.len, 32);
    let mut exact = OutputBuffer { data: Some(vec![0u8; out.len]), len: out.len };
    assert!(fill_output(&signature, &mut exact).is_ok());
    assert_eq!(exact.len, 32);
    assert_eq!(exact.data.unwrap(), signature);
    let mut short = OutputBuffer { data: Some(vec![0u8; 31]), len: 31 };
    assert_eq!(fill_output(&signature, &mut short), Err(KeygenError::InvalidParameter));
    assert_eq!(short.len, 32);
    assert_eq!(short.data.unwrap(), vec![0u8; 31]);
    let mut larger = OutputBuffer { data: Some(vec![7u8; 40]), len: 40 };
    assert!(fill_output(&signature, &mut larger).is_ok());
    assert_eq!(larger.len, 32);
    let data = larger.data.unwrap();
    assert_eq!(&data[..32], &signature[..]);
    assert_eq!(&data[32..], &[7u8; 8]);
}

#[test]
fn load_requires_existing_key() {
    let c = home_config();
    assert_eq!(aziot_keys::engine::plan_load(&c, HK, KeyKind::KeyPair, "k", true).unwrap().0, format!("keypair:k.{}", "bc49ab125d144bed7cfee5b583333e904a4ea103b104833bbe12518a73168ca6"));
    assert_eq!(aziot_keys::engine::plan_load(&c, HK, KeyKind::KeyPair, "k", false).unwrap_err(), KeygenError::NotFound);
    assert_eq!(code_of(Err(KeygenError::NotFound)), ErrorCode::InvalidParameter);
    assert_eq!(
        aziot_keys::engine::plan_load(&KeyStoreConfig::new(), HK, KeyKind::KeyPair, "k", true).unwrap_err(),
        KeygenError::Policy(PolicyError::NoWayToCreateKeys)
    );
}
