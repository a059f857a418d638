use vstd::prelude::*;
use crate::engine::CreateKeyValue;
use crate::error::KeygenError;

verus! {

#[verifier::external_type_specification]
#[verifier::external_body]
pub struct ExErrorStack(openssl::error::ErrorStack);

/// The HMAC-SHA256 of `data` under `key`.
pub uninterp spec fn hmac_sha256_of(key: Seq<u8>, data: Seq<u8>) -> Seq<u8>;

/// Relies on `openssl::sign::Signer` over `openssl::pkey::PKey::hmac`: the
/// HMAC-SHA256 of `data` under `key`, when OpenSSL succeeds.
#[verifier::external_body]
fn hmac_sha256(key: &[u8], data: &[u8]) -> (r: Result<Vec<u8>, openssl::error::ErrorStack>)
    requires
        key@.len() <= i32::MAX,
    ensures
        r is Ok ==> r->Ok_0@ == hmac_sha256_of(key@, data@),
{
    let pkey = openssl::pkey::PKey::hmac(key)?;
    let mut signer = openssl::sign::Signer::new(openssl::hash::MessageDigest::sha256(), &pkey)?;
    signer.sign_oneshot_to_vec(data)
}

/// Relies on `openssl::memcmp::eq`: whether two equally long byte strings are
/// equal, in time that does not depend on where they differ.
#[verifier::external_body]
fn constant_time_eq(a: &[u8], b: &[u8]) -> (r: bool)
    requires
        a@.len() == b@.len(),
    ensures
        r == (a@ == b@),
{
    openssl::memcmp::eq(a, b)
}

/// The AES-256-GCM ciphertext and authentication tag of `data` under `key`, `iv`
/// and associated data `aad`, with a tag of `tag_len` bytes.
pub uninterp spec fn aes_256_gcm_seal_of(
    key: Seq<u8>,
    iv: Seq<u8>,
    aad: Seq<u8>,
    data: Seq<u8>,
    tag_len: nat,
) -> (Seq<u8>, Seq<u8>);

/// Relies on `openssl::symm::encrypt_aead` with AES-256-GCM: on success the
/// ciphertext is returned and the tag written over `tag`, whose length it keeps.
#[verifier::external_body]
fn aes_256_gcm_encrypt(key: &[u8], iv: &[u8], aad: &[u8], data: &[u8], tag: &mut Vec<u8>) -> (r: Result<
    Vec<u8>,
    openssl::error::ErrorStack,
>)
    requires
        key@.len() <= i32::MAX,
        iv@.len() <= i32::MAX,
        aad@.len() <= i32::MAX,
        data@.len() <= i32::MAX,
        old(tag)@.len() <= i32::MAX,
    ensures
        final(tag)@.len() == old(tag)@.len(),
        r is Ok ==> (r->Ok_0@, final(tag)@) == aes_256_gcm_seal_of(key@, iv@, aad@, data@, old(tag)@.len()),
{
    let cipher = openssl::symm::Cipher::aes_256_gcm();
    openssl::symm::encrypt_aead(cipher, key, Some(iv), aad, data, tag.as_mut_slice())
}

/// Relies on `openssl::symm::decrypt_aead` with AES-256-GCM: it returns a
/// plaintext only when `tag` authenticates `data` and `aad`, and then that
/// plaintext is what encrypts to `data` with that tag.
#[verifier::external_body]
fn aes_256_gcm_decrypt(key: &[u8], iv: &[u8], aad: &[u8], data: &[u8], tag: &[u8]) -> (r: Result<
    Vec<u8>,
    openssl::error::ErrorStack,
>)
    requires
        key@.len() <= i32::MAX,
        iv@.len() <= i32::MAX,
        aad@.len() <= i32::MAX,
        data@.len() <= i32::MAX,
        tag@.len() <= i32::MAX,
    ensures
        r is Ok ==> aes_256_gcm_seal_of(key@, iv@, aad@, r->Ok_0@, tag@.len()) == (data@, tag@),
{
    let cipher = openssl::symm::Cipher::aes_256_gcm();
    openssl::symm::decrypt_aead(cipher, key, Some(iv), aad, data, tag)
}

/// Relies on `openssl::rand::rand_bytes`: overwrites `buf` with random bytes.
#[verifier::external_body]
fn fill_random(buf: &mut Vec<u8>) -> (r: Result<(), openssl::error::ErrorStack>)
    requires
        old(buf)@.len() <= i32::MAX,
    ensures
        final(buf)@.len() == old(buf)@.len(),
{
    openssl::rand::rand_bytes(buf.as_mut_slice())
}

/// The length of the authentication tag appended to each ciphertext.
pub const AEAD_TAG_LEN: usize = 16;

/// What the engine's encryption turns `plaintext` into: the AES-256-GCM
/// ciphertext followed by its tag.
pub open spec fn sealed(key: Seq<u8>, iv: Seq<u8>, aad: Seq<u8>, plaintext: Seq<u8>) -> Seq<u8> {
    let s = aes_256_gcm_seal_of(key, iv, aad, plaintext, AEAD_TAG_LEN as nat);
    s.0 + s.1
}

/// Whether `signature` is the HMAC-SHA256 of `data` under `key`.
pub open spec fn verdict(key: Seq<u8>, data: Seq<u8>, signature: Seq<u8>) -> bool {
    signature == hmac_sha256_of(key, data)
}

/// Signs `data` with HMAC-SHA256 under the symmetric key `key`.
pub fn sign(key: &[u8], data: &[u8]) -> (r: Result<Vec<u8>, KeygenError>)
    requires
        key@.len() <= i32::MAX,
    ensures
        match r {
            Ok(s) => s@ == hmac_sha256_of(key@, data@),
            Err(e) => e == KeygenError::External,
        },
{
    match hmac_sha256(key, data) {
        Ok(s) => Ok(s),
        Err(_) => Err(KeygenError::External),
    }
}

/// Checks an HMAC-SHA256 signature in constant time.
pub fn verify(key: &[u8], data: &[u8], signature: &[u8]) -> (r: Result<bool, KeygenError>)
    requires
        key@.len() <= i32::MAX,
    ensures
        match r {
            Ok(b) => b == verdict(key@, data@, signature@),
            Err(e) => e == KeygenError::External,
        },
{
    let expected = sign(key, data)?;
    Ok(signature_matches(expected.as_slice(), signature))
}

/// Whether `signature` is exactly `expected`; equally long inputs are compared
/// in constant time.
pub fn signature_matches(expected: &[u8], signature: &[u8]) -> (r: bool)
    ensures
        r == (signature@ == expected@),
{
    if expected.len() != signature.len() {
        return false;
    }
    constant_time_eq(expected, signature)
}

/// Encrypts `plaintext` with AES-256-GCM; the tag follows the ciphertext.
pub fn encrypt(key: &[u8], iv: &[u8], aad: &[u8], plaintext: &[u8]) -> (r: Result<Vec<u8>, KeygenError>)
    requires
        key@.len() <= i32::MAX,
        iv@.len() <= i32::MAX,
        aad@.len() <= i32::MAX,
        plaintext@.len() <= i32::MAX,
    ensures
        match r {
            Ok(c) => c@ == sealed(key@, iv@, aad@, plaintext@),
            Err(e) => e == KeygenError::External,
        },
{
    let mut tag: Vec<u8> = vec![0u8; AEAD_TAG_LEN];
    match aes_256_gcm_encrypt(key, iv, aad, plaintext, &mut tag) {
        Err(_) => Err(KeygenError::External),
        Ok(c) => Ok(join_sealed(c, &tag)),
    }
}

/// A ciphertext followed by its tag.
pub fn join_sealed(ciphertext: Vec<u8>, tag: &Vec<u8>) -> (r: Vec<u8>)
    ensures
        r@ == ciphertext@ + tag@,
{
    let mut c = ciphertext;
    let ghost body = c@;
    let mut i: usize = 0;
    while i < tag.len()
        invariant
            0 <= i <= tag@.len(),
            c@ == body + tag@.subrange(0, i as int),
        decreases tag.len() - i,
    {
        c.push(tag[i]);
        assert(tag@.subrange(0, i as int + 1) =~= tag@.subrange(0, i as int).push(tag@[i as int]));
        i = i + 1;
    }
    assert(tag@.subrange(0, tag@.len() as int) =~= tag@);
    c
}

/// Decrypts and authenticates a ciphertext made by `encrypt`. Input too short to
/// hold a tag is an invalid parameter; a failed authentication is external.
pub fn decrypt(key: &[u8], iv: &[u8], aad: &[u8], ciphertext: &[u8]) -> (r: Result<Vec<u8>, KeygenError>)
    requires
        key@.len() <= i32::MAX,
        iv@.len() <= i32::MAX,
        aad@.len() <= i32::MAX,
        ciphertext@.len() <= i32::MAX,
    ensures
        ciphertext@.len() < AEAD_TAG_LEN ==> r == Err::<Vec<u8>, KeygenError>(KeygenError::InvalidParameter),
        ciphertext@.len() >= AEAD_TAG_LEN && r is Err ==> r == Err::<Vec<u8>, KeygenError>(KeygenError::External),
        r is Ok ==> sealed(key@, iv@, aad@, r->Ok_0@) == ciphertext@,
{
    if ciphertext.len() < AEAD_TAG_LEN {
        return Err(KeygenError::InvalidParameter);
    }
    let split = ciphertext.len() - AEAD_TAG_LEN;
    let (body, tag) = ciphertext.split_at(split);
    match aes_256_gcm_decrypt(key, iv, aad, body, tag) {
        Ok(p) => {
            assert(body@ + tag@ =~= ciphertext@);
            Ok(p)
        },
        Err(_) => Err(KeygenError::External),
    }
}

/// The bytes of a new symmetric key: imported as given, or `length` random bytes.
pub fn key_material(value: &CreateKeyValue) -> (r: Result<Vec<u8>, KeygenError>)
    requires
        value is Generate ==> value->length <= i32::MAX,
    ensures
        match value {
            CreateKeyValue::Import { bytes } => r is Ok && r->Ok_0@ == bytes@,
            CreateKeyValue::Generate { length } => match r {
                Ok(k) => k@.len() == *length,
                Err(e) => e == KeygenError::External,
            },
        },
{
    match value {
        CreateKeyValue::Import { bytes } => Ok(bytes.clone()),
        CreateKeyValue::Generate { length } => {
            let mut buf: Vec<u8> = vec![0u8; *length];
            match fill_random(&mut buf) {
                Ok(()) => Ok(buf),
                Err(_) => Err(KeygenError::External),
            }
        },
    }
}

/// A signature the engine produced verifies, and flipping any one of its bits
/// makes it fail to verify.
pub proof fn hmac_signatures_verify(key: Seq<u8>, data: Seq<u8>, signature: Seq<u8>, i: int, bit: u8)
    requires
        signature == hmac_sha256_of(key, data),
        0 <= i < signature.len(),
        bit < 8,
    ensures
        verdict(key, data, signature),
        !verdict(key, data, signature.update(i, signature[i] ^ (1u8 << bit))),
{
    let b = signature[i];
    assert(b ^ (1u8 << bit) != b) by (bit_vector)
        requires
            bit < 8,
    ;
    assert(signature.update(i, b ^ (1u8 << bit))[i] != signature[i]);
}

} // verus!
