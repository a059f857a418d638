use vstd::prelude::*;
use vstd::utf8::{encode_utf8, valid_utf8};
use crate::engine::{RsaPkcs1MessageDigest, SignMechanism};
use crate::error::KeygenError;
use crate::text::{chars_are, chars_of, split_chars, split_on};

verus! {

/// The algorithm family of a stored key pair.
#[derive(Clone, Copy, Debug, PartialEq, Eq, Structural)]
pub enum KeyAlgorithm {
    Ec,
    Rsa,
    Other,
}

/// Relies on `openssl::ec::EcKey::generate` on the P-256 curve and
/// `EcKeyRef::private_key_to_pem`: a new EC private key, PEM-encoded.
#[verifier::external_body]
fn generate_ec_p256() -> (r: Result<Vec<u8>, openssl::error::ErrorStack>)
    ensures
        r is Ok ==> key_algorithm_of(r->Ok_0@) == KeyAlgorithm::Ec,
{
    let group = openssl::ec::EcGroup::from_curve_name(openssl::nid::Nid::X9_62_PRIME256V1)?;
    let key = openssl::ec::EcKey::generate(&group)?;
    key.private_key_to_pem()
}

/// The bit length of the group order of the EC private key `pem`.
pub uninterp spec fn ec_order_bits_of(pem: Seq<u8>) -> u32;

/// Relies on `openssl::ec::EcKey::private_key_from_pem` and
/// `EcGroupRef::order_bits`: the bit length of the key's group order.
#[verifier::external_body]
fn ec_order_bits(pem: &[u8]) -> (r: Result<u32, openssl::error::ErrorStack>)
    requires
        pem@.len() <= i32::MAX,
    ensures
        r is Ok ==> r->Ok_0 == ec_order_bits_of(pem@),
{
    Ok(openssl::ec::EcKey::private_key_from_pem(pem)?.group().order_bits())
}

/// Relies on `openssl::ecdsa::EcdsaSig::sign` over an EC private key read by
/// `EcKey::private_key_from_pem`, and on `BigNumRef::to_vec_padded`: the
/// signature's `r` and `s`, each big-endian in exactly `width` bytes. ECDSA
/// signatures are randomized, so nothing more is known of the bytes.
#[verifier::external_body]
fn ecdsa_sign_components(pem: &[u8], digest: &[u8], width: i32) -> (r: Result<(Vec<u8>, Vec<u8>), openssl::error::ErrorStack>)
    requires
        pem@.len() <= i32::MAX,
        digest@.len() <= i32::MAX,
        0 <= width,
    ensures
        r is Ok ==> r->Ok_0.0@.len() == width && r->Ok_0.1@.len() == width,
{
    let key = openssl::ec::EcKey::private_key_from_pem(pem)?;
    let sig = openssl::ecdsa::EcdsaSig::sign(digest, &key)?;
    Ok((sig.r().to_vec_padded(width)?, sig.s().to_vec_padded(width)?))
}

/// The length of an ECDSA signature written as `r` then `s`, each in as many
/// bytes as the group order takes.
pub open spec fn ecdsa_signature_len(order_bits: u32) -> nat {
    2 * ((order_bits as nat + 7) / 8)
}

/// The RSA PKCS#1 v1.5 signature of `digest` made with the PEM private key
/// `pem`, for the digest algorithm `md`.
pub uninterp spec fn rsa_pkcs1_signature_of(pem: Seq<u8>, md: RsaPkcs1MessageDigest, digest: Seq<u8>) -> Seq<u8>;

/// Relies on `openssl::pkey_ctx::PkeyCtx::sign_to_vec` with PKCS#1 padding and the
/// given signature digest, over a key read by `PKey::private_key_from_pem`.
#[verifier::external_body]
fn rsa_pkcs1_sign(pem: &[u8], md: RsaPkcs1MessageDigest, digest: &[u8]) -> (r: Result<Vec<u8>, openssl::error::ErrorStack>)
    requires
        pem@.len() <= i32::MAX,
    ensures
        r is Ok ==> r->Ok_0@ == rsa_pkcs1_signature_of(pem@, md, digest@),
{
    let key = openssl::pkey::PKey::private_key_from_pem(pem)?;
    let mut ctx = openssl::pkey_ctx::PkeyCtx::new(&key)?;
    ctx.sign_init()?;
    ctx.set_rsa_padding(openssl::rsa::Padding::PKCS1)?;
    ctx.set_signature_md(match md {
        RsaPkcs1MessageDigest::Sha1 => openssl::md::Md::sha1(),
        RsaPkcs1MessageDigest::Sha224 => openssl::md::Md::sha224(),
        RsaPkcs1MessageDigest::Sha256 => openssl::md::Md::sha256(),
        RsaPkcs1MessageDigest::Sha384 => openssl::md::Md::sha384(),
        RsaPkcs1MessageDigest::Sha512 => openssl::md::Md::sha512(),
    })?;
    let mut sig = Vec::new();
    ctx.sign_to_vec(digest, &mut sig)?;
    Ok(sig)
}

/// The PEM public key of the PEM private key `pem`.
pub uninterp spec fn public_key_pem_of(pem: Seq<u8>) -> Seq<u8>;

/// Relies on `PKey::private_key_from_pem` and `PKeyRef::public_key_to_pem`: the
/// public half of a private key, PEM-encoded.
#[verifier::external_body]
fn public_key_pem(pem: &[u8]) -> (r: Result<Vec<u8>, openssl::error::ErrorStack>)
    requires
        pem@.len() <= i32::MAX,
    ensures
        r is Ok ==> r->Ok_0@ == public_key_pem_of(pem@),
{
    openssl::pkey::PKey::private_key_from_pem(pem)?.public_key_to_pem()
}

/// The algorithm family of the PEM private key `pem`.
pub uninterp spec fn key_algorithm_of(pem: Seq<u8>) -> KeyAlgorithm;

/// Relies on `PKey::private_key_from_pem` and `PKeyRef::id`: the key's type.
#[verifier::external_body]
fn key_algorithm(pem: &[u8]) -> (r: Result<KeyAlgorithm, openssl::error::ErrorStack>)
    requires
        pem@.len() <= i32::MAX,
    ensures
        r is Ok ==> r->Ok_0 == key_algorithm_of(pem@),
{
    let id = openssl::pkey::PKey::private_key_from_pem(pem)?.id();
    Ok(match id {
        openssl::pkey::Id::EC => KeyAlgorithm::Ec,
        openssl::pkey::Id::RSA => KeyAlgorithm::Rsa,
        _ => KeyAlgorithm::Other,
    })
}

/// Relies on `String::from_utf8`: the text the bytes encode, when they are UTF-8.
#[verifier::external_body]
fn utf8_text(b: Vec<u8>) -> (r: Option<String>)
    ensures
        r is Some <==> valid_utf8(b@),
        r is Some ==> encode_utf8(r->Some_0@) == b@,
{
    String::from_utf8(b).ok()
}

/// Relies on `openssl::rsa::Rsa::generate` and `RsaRef::private_key_to_pem`: a
/// new RSA private key of `bits` bits, PEM-encoded.
#[verifier::external_body]
fn generate_rsa(bits: u32) -> (r: Result<Vec<u8>, openssl::error::ErrorStack>)
    ensures
        r is Ok ==> key_algorithm_of(r->Ok_0@) == KeyAlgorithm::Rsa,
{
    openssl::rsa::Rsa::generate(bits)?.private_key_to_pem()
}

/// The kinds of key pair this engine generates.
#[derive(Clone, Copy, Debug, PartialEq, Eq, Structural)]
pub enum KeyGenAlgorithm {
    EcP256,
    Rsa2048,
    Rsa4096,
}

/// The algorithm one entry of a preference list names: `Some(None)` for `*`,
/// which accepts any algorithm, and `None` for a name this engine does not know.
pub open spec fn algorithm_entry(s: Seq<char>) -> Option<Option<KeyGenAlgorithm>> {
    if s == "ec-p256"@ {
        Some(Some(KeyGenAlgorithm::EcP256))
    } else if s == "rsa-2048"@ {
        Some(Some(KeyGenAlgorithm::Rsa2048))
    } else if s == "rsa-4096"@ {
        Some(Some(KeyGenAlgorithm::Rsa4096))
    } else if s == "*"@ {
        Some(None)
    } else {
        None
    }
}

/// The first entry of `entries` that this engine can serve; `*` is served with
/// P-256, and unknown names are skipped.
pub open spec fn first_supported(entries: Seq<Seq<char>>) -> Option<KeyGenAlgorithm>
    decreases entries.len(),
{
    if entries.len() == 0 {
        None
    } else {
        match algorithm_entry(entries[0]) {
            Some(Some(a)) => Some(a),
            Some(None) => Some(KeyGenAlgorithm::EcP256),
            None => first_supported(entries.drop_first()),
        }
    }
}

/// The algorithm for a new key pair given a `:`-separated preference list, or
/// P-256 when there is none.
pub open spec fn chosen_algorithm(preferred: Option<Seq<char>>) -> Option<KeyGenAlgorithm> {
    match preferred {
        None => Some(KeyGenAlgorithm::EcP256),
        Some(p) => first_supported(split_on(p, ':')),
    }
}

fn entry_of(s: &Vec<char>) -> (r: Option<Option<KeyGenAlgorithm>>)
    ensures
        r == algorithm_entry(s@),
{
    if chars_are(s, "ec-p256") {
        Some(Some(KeyGenAlgorithm::EcP256))
    } else if chars_are(s, "rsa-2048") {
        Some(Some(KeyGenAlgorithm::Rsa2048))
    } else if chars_are(s, "rsa-4096") {
        Some(Some(KeyGenAlgorithm::Rsa4096))
    } else if chars_are(s, "*") {
        Some(None)
    } else {
        None
    }
}

/// Chooses the algorithm of a new key pair; a list naming nothing this engine
/// can generate is an invalid parameter.
pub fn choose_algorithm(preferred: Option<&str>) -> (r: Result<KeyGenAlgorithm, KeygenError>)
    ensures
        match chosen_algorithm(match preferred {
            Some(p) => Some(p@),
            None => None,
        }) {
            Some(a) => r == Ok::<KeyGenAlgorithm, KeygenError>(a),
            None => r == Err::<KeyGenAlgorithm, KeygenError>(KeygenError::InvalidParameter),
        },
{
    let p = match preferred {
        None => return Ok(KeyGenAlgorithm::EcP256),
        Some(p) => p,
    };
    let entries = split_chars(&chars_of(p), ':');
    let ghost es = split_on(p@, ':');
    let mut k: usize = 0;
    assert(es.subrange(0, es.len() as int) =~= es);
    while k < entries.len()
        invariant
            entries@.len() == es.len(),
            es == split_on(p@, ':'),
            preferred == Some(p),
            forall|j: int| 0 <= j < entries@.len() ==> #[trigger] entries@[j]@ == es[j],
            0 <= k <= es.len(),
            first_supported(es.subrange(k as int, es.len() as int)) == first_supported(es),
        decreases entries.len() - k,
    {
        proof {
            let rest = es.subrange(k as int, es.len() as int);
            assert(rest[0] == es[k as int]);
            assert(rest.drop_first() =~= es.subrange(k as int + 1, es.len() as int));
            assert(first_supported(rest) == match algorithm_entry(es[k as int]) {
                Some(Some(a)) => Some(a),
                Some(None) => Some(KeyGenAlgorithm::EcP256),
                None => first_supported(rest.drop_first()),
            });
        }
        match entry_of(&entries[k]) {
            Some(Some(a)) => return Ok(a),
            Some(None) => return Ok(KeyGenAlgorithm::EcP256),
            None => {},
        }
        k = k + 1;
    }
    Err(KeygenError::InvalidParameter)
}

/// Makes the key material of a new key pair of algorithm `a`: a PEM private key.
pub fn generate_key_pair(a: KeyGenAlgorithm) -> (r: Result<Vec<u8>, KeygenError>)
    ensures
        r is Err ==> r == Err::<Vec<u8>, KeygenError>(KeygenError::External),
        r is Ok ==> key_algorithm_of(r->Ok_0@) == (if a == KeyGenAlgorithm::EcP256 {
            KeyAlgorithm::Ec
        } else {
            KeyAlgorithm::Rsa
        }),
{
    let made = match a {
        KeyGenAlgorithm::EcP256 => generate_ec_p256(),
        KeyGenAlgorithm::Rsa2048 => generate_rsa(2048),
        KeyGenAlgorithm::Rsa4096 => generate_rsa(4096),
    };
    match made {
        Ok(pem) => Ok(pem),
        Err(_) => Err(KeygenError::External),
    }
}

/// Signs `digest` with the PEM private key `pem`: ECDSA and RSA PKCS#1 are
/// served, RSA-PSS is refused as not implemented, and HMAC does not apply to a
/// key pair. An ECDSA signature is `r` then `s` at the width of the group order,
/// so every signature of one key has the same length.
pub fn sign(pem: &[u8], mechanism: SignMechanism, digest: &[u8]) -> (r: Result<Vec<u8>, KeygenError>)
    requires
        pem@.len() <= i32::MAX,
        digest@.len() <= i32::MAX,
    ensures
        match mechanism {
            SignMechanism::Ecdsa => match r {
                Ok(s) => s@.len() == ecdsa_signature_len(ec_order_bits_of(pem@)),
                Err(e) => e == KeygenError::External,
            },
            SignMechanism::RsaPkcs1 { message_digest } => match r {
                Ok(s) => s@ == rsa_pkcs1_signature_of(pem@, message_digest, digest@),
                Err(e) => e == KeygenError::External,
            },
            SignMechanism::RsaPss { .. } => r == Err::<Vec<u8>, KeygenError>(KeygenError::NotImplemented),
            SignMechanism::HmacSha256 => r == Err::<Vec<u8>, KeygenError>(KeygenError::InvalidParameter),
        },
{
    match mechanism {
        SignMechanism::Ecdsa => {
            let bits = match ec_order_bits(pem) {
                Ok(b) => b,
                Err(_) => return Err(KeygenError::External),
            };
            let width: u32 = bits / 8 + if bits % 8 == 0 { 0 } else { 1 };
            assert(width as nat == (bits as nat + 7) / 8) by (nonlinear_arith)
                requires
                    width == bits / 8 + if bits % 8 == 0 { 0u32 } else { 1u32 },
            ;
            match ecdsa_sign_components(pem, digest, width as i32) {
                Ok((r, s)) => {
                    let mut sig = r;
                    let ghost rv = sig@;
                    let mut i: usize = 0;
                    while i < s.len()
                        invariant
                            0 <= i <= s@.len(),
                            sig@ == rv + s@.subrange(0, i as int),
                        decreases s.len() - i,
                    {
                        sig.push(s[i]);
                        assert(s@.subrange(0, i as int + 1) =~= s@.subrange(0, i as int).push(s@[i as int]));
                        i = i + 1;
                    }
                    Ok(sig)
                },
                Err(_) => Err(KeygenError::External),
            }
        },
        SignMechanism::RsaPkcs1 { message_digest } => match rsa_pkcs1_sign(pem, message_digest, digest) {
            Ok(s) => Ok(s),
            Err(_) => Err(KeygenError::External),
        },
        SignMechanism::RsaPss { .. } => Err(KeygenError::NotImplemented),
        SignMechanism::HmacSha256 => Err(KeygenError::InvalidParameter),
    }
}

pub open spec fn algorithm_name(a: KeyAlgorithm) -> Option<Seq<char>> {
    match a {
        KeyAlgorithm::Ec => Some("ECDSA"@),
        KeyAlgorithm::Rsa => Some("RSA"@),
        KeyAlgorithm::Other => None,
    }
}

/// The name under which a key pair's algorithm is reported.
pub fn algorithm_text(a: KeyAlgorithm) -> (r: Option<String>)
    ensures
        match algorithm_name(a) {
            Some(n) => r is Some && r->Some_0@ == n,
            None => r is None,
        },
{
    match a {
        KeyAlgorithm::Ec => Some("ECDSA".to_owned()),
        KeyAlgorithm::Rsa => Some("RSA".to_owned()),
        KeyAlgorithm::Other => None,
    }
}

/// A public parameter of the key pair `pem`: `algorithm` names its family,
/// `public_key_pem` gives its public key; other names are invalid parameters.
pub fn public_parameter(pem: &[u8], name: &str) -> (r: Result<String, KeygenError>)
    requires
        pem@.len() <= i32::MAX,
    ensures
        name@ == "algorithm"@ ==> match r {
            Ok(v) => algorithm_name(key_algorithm_of(pem@)) == Some(v@),
            Err(e) => e == KeygenError::External,
        },
        name@ == "public_key_pem"@ ==> match r {
            Ok(v) => encode_utf8(v@) == public_key_pem_of(pem@),
            Err(e) => e == KeygenError::External,
        },
        name@ != "algorithm"@ && name@ != "public_key_pem"@ ==> r == Err::<String, KeygenError>(KeygenError::InvalidParameter),
{
    proof {
        reveal_strlit("algorithm");
        reveal_strlit("public_key_pem");
        assert("algorithm"@.len() != "public_key_pem"@.len());
    }
    let n = chars_of(name);
    if chars_are(&n, "algorithm") {
        match key_algorithm(pem) {
            Ok(a) => match algorithm_text(a) {
                Some(t) => Ok(t),
                None => Err(KeygenError::External),
            },
            Err(_) => Err(KeygenError::External),
        }
    } else if chars_are(&n, "public_key_pem") {
        match public_key_pem(pem) {
            Ok(p) => match utf8_text(p) {
                Some(s) => Ok(s),
                None => Err(KeygenError::External),
            },
            Err(_) => Err(KeygenError::External),
        }
    } else {
        Err(KeygenError::InvalidParameter)
    }
}

} // verus!
