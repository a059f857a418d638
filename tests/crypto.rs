use aziot_keys::symmetric::{join_sealed, signature_matches};
use aziot_keys::engine::CreateKeyValue;
use aziot_keys::error::KeygenError;
use aziot_keys::symmetric::{decrypt, encrypt, key_material, sign, verify};

fn hex(b: &[u8]) -> String {
    b.iter().map(|x| format!("{:02x}", x)).collect()
}

#[test]
fn hmac_known_value() {
    let s = sign(&[1u8; 32], b"hello").unwrap();
    assert_eq!(hex(&s), "3a4d75699f355339725ecf666241ddd9c5ca105542c40a7f5607efc7ece5f67e");
}

#[test]
fn hmac_verifies_and_rejects_bit_flips() {
    let key = key_material(&CreateKeyValue::Generate { length: 32 }).unwrap();
    assert_eq!(key.len(), 32);
    let sig = sign(&key, b"message").unwrap();
    assert!(verify(&key, b"message", &sig).unwrap());
    for i in 0..sig.len() {
        for bit in 0..8 {
            let mut bad = sig.clone();
            bad[i] ^= 1 << bit;
            assert!(!verify(&key, b"message", &bad).unwrap());
        }
    }
    assert!(!verify(&key, b"message", &sig[..31]).unwrap());
    assert!(!verify(&key, b"other", &sig).unwrap());
}

#[test]
fn imported_key_is_kept() {
    let k = key_material(&CreateKeyValue::Import { bytes: vec![9, 8, 7] }).unwrap();
    assert_eq!(k, vec![9, 8, 7]);
}

#[test]
fn aead_round_trip() {
    let key = [5u8; 32];
    let iv = [1u8; 12];
    let c = encrypt(&key, &iv, b"aad", b"plaintext").unwrap();
    assert_eq!(c.len(), 9 + 16);
    assert_ne!(&c[..9], b"plaintext");
    assert_eq!(decrypt(&key, &iv, b"aad", &c).unwrap(), b"plaintext".to_vec());
}

#[test]
fn aead_rejects_other_aad_and_tampering() {
    let key = [5u8; 32];
    let iv = [1u8; 12];
    let c = encrypt(&key, &iv, b"aad", b"plaintext").unwrap();
    assert_eq!(decrypt(&key, &iv, b"other", &c).unwrap_err(), KeygenError::External);
    let mut t = c.clone();
    t[0] ^= 1;
    assert_eq!(decrypt(&key, &iv, b"aad", &t).unwrap_err(), KeygenError::External);
    assert_eq!(decrypt(&key, &iv, b"aad", &c[..15]).unwrap_err(), KeygenError::InvalidParameter);
}

#[test]
fn aead_refuses_wrong_key_length() {
    assert_eq!(encrypt(&[1u8; 5], &[1u8; 12], b"", b"x").unwrap_err(), KeygenError::External);
}

#[test]
fn signature_comparison_and_tag_joining() {
    assert!(signature_matches(&[1, 2, 3], &[1, 2, 3]));
    assert!(!signature_matches(&[1, 2, 3], &[1, 2, 4]));
    assert!(!signature_matches(&[1, 2, 3], &[1, 2]));
    assert_eq!(join_sealed(vec![1, 2], &vec![3, 4]), vec![1, 2, 3, 4]);
}
