use aziot_keys::key_pair::{algorithm_text, choose_algorithm, KeyAlgorithm, KeyGenAlgorithm};
use aziot_keys::engine::{RsaPkcs1MessageDigest, RsaPssMaskGenerationFunction, SignMechanism};
use aziot_keys::error::KeygenError;
use aziot_keys::key_pair::{generate_key_pair, public_parameter, sign};

#[test]
fn ecdsa_signature_verifies_with_public_key() {
    let pem = generate_key_pair(KeyGenAlgorithm::EcP256).unwrap();
    let digest = openssl::sha::sha256(b"message");
    let sig = sign(&pem, SignMechanism::Ecdsa, &digest).unwrap();
    let public = public_parameter(&pem, "public_key_pem").unwrap();
    assert!(public.starts_with("-----BEGIN PUBLIC KEY-----"));
    let key = openssl::ec::EcKey::public_key_from_pem(public.as_bytes()).unwrap();
    assert_eq!(sig.len(), 64);
    let r = openssl::bn::BigNum::from_slice(&sig[..32]).unwrap();
    let s = openssl::bn::BigNum::from_slice(&sig[32..]).unwrap();
    let sig = openssl::ecdsa::EcdsaSig::from_private_components(r, s).unwrap();
    assert!(sig.verify(&digest, &key).unwrap());
    for _ in 0..20 {
        assert_eq!(sign(&pem, SignMechanism::Ecdsa, &digest).unwrap().len(), 64);
    }
    assert_eq!(public_parameter(&pem, "algorithm").unwrap(), "ECDSA");
}

#[test]
fn rsa_pkcs1_signature_verifies() {
    let rsa = openssl::rsa::Rsa::generate(2048).unwrap();
    let pem = rsa.private_key_to_pem().unwrap();
    let digest = openssl::sha::sha256(b"message");
    let mechanism = SignMechanism::RsaPkcs1 { message_digest: RsaPkcs1MessageDigest::Sha256 };
    let sig = sign(&pem, mechanism, &digest).unwrap();
    assert_eq!(sig.len(), 256);
    assert_eq!(sign(&pem, mechanism, &digest).unwrap(), sig);
    let pkey = openssl::pkey::PKey::from_rsa(rsa).unwrap();
    let mut verifier = openssl::sign::Verifier::new(openssl::hash::MessageDigest::sha256(), &pkey).unwrap();
    verifier.update(b"message").unwrap();
    assert!(verifier.verify(&sig).unwrap());
    assert_eq!(public_parameter(&pem, "algorithm").unwrap(), "RSA");
}

#[test]
fn key_pair_refusals() {
    let pem = generate_key_pair(KeyGenAlgorithm::EcP256).unwrap();
    assert_eq!(sign(&pem, SignMechanism::HmacSha256, b"d").unwrap_err(), KeygenError::InvalidParameter);
    let pss = SignMechanism::RsaPss { mask_generation_function: RsaPssMaskGenerationFunction::Sha256, salt_len: 32 };
    assert_eq!(sign(&pem, pss, b"d").unwrap_err(), KeygenError::NotImplemented);
    assert_eq!(public_parameter(&pem, "color").unwrap_err(), KeygenError::InvalidParameter);
    assert_eq!(sign(b"not a key", SignMechanism::Ecdsa, b"d").unwrap_err(), KeygenError::External);
    assert_eq!(public_parameter(b"not a key", "algorithm").unwrap_err(), KeygenError::External);
}

#[test]
fn algorithm_names() {
    assert_eq!(algorithm_text(KeyAlgorithm::Ec).as_deref(), Some("ECDSA"));
    assert_eq!(algorithm_text(KeyAlgorithm::Rsa).as_deref(), Some("RSA"));
    assert_eq!(algorithm_text(KeyAlgorithm::Other), None);
}

#[test]
fn preferred_algorithms_choose_first_supported() {
    assert_eq!(choose_algorithm(None), Ok(KeyGenAlgorithm::EcP256));
    assert_eq!(choose_algorithm(Some("rsa-2048:ec-p256")), Ok(KeyGenAlgorithm::Rsa2048));
    assert_eq!(choose_algorithm(Some("ed25519:rsa-4096")), Ok(KeyGenAlgorithm::Rsa4096));
    assert_eq!(choose_algorithm(Some("ed25519:*")), Ok(KeyGenAlgorithm::EcP256));
    assert_eq!(choose_algorithm(Some("ed25519")), Err(KeygenError::InvalidParameter));
    assert_eq!(choose_algorithm(Some("")), Err(KeygenError::InvalidParameter));
}

#[test]
fn generated_rsa_key_reports_rsa() {
    let pem = generate_key_pair(KeyGenAlgorithm::Rsa2048).unwrap();
    assert_eq!(public_parameter(&pem, "algorithm").unwrap(), "RSA");
}
