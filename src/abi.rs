use vstd::prelude::*;
use crate::error::KeygenError;
use crate::engine::{
    seal_checked, sign_seal_checked, sign_target, sign_target_of, target, target_of, RsaPkcs1MessageDigest,
    SignMechanism,
};
use crate::handle::{handle_round_trip, handle_text, KeyHandle, KeyKind};
use crate::symmetric::hmac_sha256_of;
use crate::key_pair::{ec_order_bits_of, ecdsa_signature_len, rsa_pkcs1_signature_of};
use crate::location::{resolved, KeyStoreConfig, KeyStoreConfigView, Location, LocationView};

verus! {

/// The one interface version defined so far.
pub const KEYGEN_VERSION_2_0_0_0: u32 = 0x02000000;

/// Signing mechanism codes of the plugin boundary.
pub const KEYGEN_SIGN_MECHANISM_ECDSA: u32 = 1;
pub const KEYGEN_SIGN_MECHANISM_RSA_PKCS1: u32 = 2;
pub const KEYGEN_SIGN_MECHANISM_RSA_PSS: u32 = 3;
pub const KEYGEN_SIGN_MECHANISM_HMAC_SHA256: u32 = 4;

/// Encryption mechanism codes of the plugin boundary.
pub const KEYGEN_ENCRYPT_MECHANISM_AEAD: u32 = 1;

/// Accepts a request for the function table of `version`; only one version exists.
pub fn negotiate_version(version: u32) -> (r: Result<(), KeygenError>)
    ensures
        r is Ok <==> version == KEYGEN_VERSION_2_0_0_0,
        r is Err ==> r == Err::<(), KeygenError>(KeygenError::InvalidParameter),
{
    if version == KEYGEN_VERSION_2_0_0_0 {
        Ok(())
    } else {
        Err(KeygenError::InvalidParameter)
    }
}

/// Digest codes in the parameters of a boundary RSA PKCS#1 sign call.
pub const KEYGEN_RSA_PKCS1_DIGEST_SHA1: u32 = 1;
pub const KEYGEN_RSA_PKCS1_DIGEST_SHA224: u32 = 2;
pub const KEYGEN_RSA_PKCS1_DIGEST_SHA256: u32 = 3;
pub const KEYGEN_RSA_PKCS1_DIGEST_SHA384: u32 = 4;
pub const KEYGEN_RSA_PKCS1_DIGEST_SHA512: u32 = 5;

/// The digest algorithm a boundary digest code denotes.
pub open spec fn digest_of_code(d: u32) -> Option<RsaPkcs1MessageDigest> {
    if d == KEYGEN_RSA_PKCS1_DIGEST_SHA1 {
        Some(RsaPkcs1MessageDigest::Sha1)
    } else if d == KEYGEN_RSA_PKCS1_DIGEST_SHA224 {
        Some(RsaPkcs1MessageDigest::Sha224)
    } else if d == KEYGEN_RSA_PKCS1_DIGEST_SHA256 {
        Some(RsaPkcs1MessageDigest::Sha256)
    } else if d == KEYGEN_RSA_PKCS1_DIGEST_SHA384 {
        Some(RsaPkcs1MessageDigest::Sha384)
    } else if d == KEYGEN_RSA_PKCS1_DIGEST_SHA512 {
        Some(RsaPkcs1MessageDigest::Sha512)
    } else {
        None
    }
}

/// Reads a boundary digest code.
pub fn digest_from_code(d: u32) -> (r: Option<RsaPkcs1MessageDigest>)
    ensures
        r == digest_of_code(d),
{
    if d == KEYGEN_RSA_PKCS1_DIGEST_SHA1 {
        Some(RsaPkcs1MessageDigest::Sha1)
    } else if d == KEYGEN_RSA_PKCS1_DIGEST_SHA224 {
        Some(RsaPkcs1MessageDigest::Sha224)
    } else if d == KEYGEN_RSA_PKCS1_DIGEST_SHA256 {
        Some(RsaPkcs1MessageDigest::Sha256)
    } else if d == KEYGEN_RSA_PKCS1_DIGEST_SHA384 {
        Some(RsaPkcs1MessageDigest::Sha384)
    } else if d == KEYGEN_RSA_PKCS1_DIGEST_SHA512 {
        Some(RsaPkcs1MessageDigest::Sha512)
    } else {
        None
    }
}

/// The mechanism a boundary sign call asks for with mechanism code `m`, where
/// `rsa_digest` is the digest code of its RSA PKCS#1 parameters, if it passed
/// any: RSA-PSS is refused as not implemented, an unknown code or missing or
/// unknown RSA parameters are invalid parameters.
pub open spec fn sign_mechanism_of_code(m: u32, rsa_digest: Option<u32>) -> Result<SignMechanism, KeygenError> {
    if m == KEYGEN_SIGN_MECHANISM_ECDSA {
        Ok(SignMechanism::Ecdsa)
    } else if m == KEYGEN_SIGN_MECHANISM_RSA_PKCS1 {
        match rsa_digest {
            Some(d) => match digest_of_code(d) {
                Some(md) => Ok(SignMechanism::RsaPkcs1 { message_digest: md }),
                None => Err(KeygenError::InvalidParameter),
            },
            None => Err(KeygenError::InvalidParameter),
        }
    } else if m == KEYGEN_SIGN_MECHANISM_RSA_PSS {
        Err(KeygenError::NotImplemented)
    } else if m == KEYGEN_SIGN_MECHANISM_HMAC_SHA256 {
        Ok(SignMechanism::HmacSha256)
    } else {
        Err(KeygenError::InvalidParameter)
    }
}

/// Reads the mechanism of a boundary sign call.
pub fn sign_mechanism_from_code(m: u32, rsa_digest: Option<u32>) -> (r: Result<SignMechanism, KeygenError>)
    ensures
        r == sign_mechanism_of_code(m, rsa_digest),
{
    if m == KEYGEN_SIGN_MECHANISM_ECDSA {
        Ok(SignMechanism::Ecdsa)
    } else if m == KEYGEN_SIGN_MECHANISM_RSA_PKCS1 {
        match rsa_digest {
            Some(d) => match digest_from_code(d) {
                Some(md) => Ok(SignMechanism::RsaPkcs1 { message_digest: md }),
                None => Err(KeygenError::InvalidParameter),
            },
            None => Err(KeygenError::InvalidParameter),
        }
    } else if m == KEYGEN_SIGN_MECHANISM_RSA_PSS {
        Err(KeygenError::NotImplemented)
    } else if m == KEYGEN_SIGN_MECHANISM_HMAC_SHA256 {
        Ok(SignMechanism::HmacSha256)
    } else {
        Err(KeygenError::InvalidParameter)
    }
}

pub open spec fn routed(r: Result<(Location, SignMechanism), KeygenError>) -> Result<(LocationView, SignMechanism), KeygenError> {
    match r {
        Ok(p) => Ok((p.0@, p.1)),
        Err(e) => Err(e),
    }
}

/// Where a boundary sign call on key handle `h` goes: the mechanism is read from
/// its code, the handle must claim a key of the mechanism's family and carry a
/// seal made under `hk`, and only then is the key's location resolved.
pub open spec fn sign_route_of(c: KeyStoreConfigView, hk: Seq<u8>, h: Seq<char>, m: u32, rsa_digest: Option<u32>) -> Result<(LocationView, SignMechanism), KeygenError> {
    match sign_mechanism_of_code(m, rsa_digest) {
        Err(e) => Err(e),
        Ok(mech) => match sign_target_of(c, hk, h, mech) {
            Ok(l) => Ok((l, mech)),
            Err(e) => Err(e),
        },
    }
}

/// Whether a boundary sign call reaches the seal check.
pub open spec fn sign_route_seal_checked(h: Seq<char>, m: u32, rsa_digest: Option<u32>) -> bool {
    sign_mechanism_of_code(m, rsa_digest) is Ok && sign_seal_checked(h, sign_mechanism_of_code(m, rsa_digest)->Ok_0)
}

/// Routes a boundary sign call. Apart from the result stated, the call can only
/// fail as external, while checking the seal.
pub fn sign_route(config: &KeyStoreConfig, hk: &[u8], handle: &KeyHandle, mechanism: u32, rsa_digest: Option<u32>) -> (r: Result<(Location, SignMechanism), KeygenError>)
    requires
        hk@.len() <= i32::MAX,
    ensures
        routed(r) == sign_route_of(config@, hk@, handle@, mechanism, rsa_digest)
            || (r == Err::<(Location, SignMechanism), KeygenError>(KeygenError::External)
                && sign_route_seal_checked(handle@, mechanism, rsa_digest)),
{
    let mech = sign_mechanism_from_code(mechanism, rsa_digest)?;
    let location = sign_target(config, hk, handle, mech)?;
    Ok((location, mech))
}

/// Where a boundary verify call on key handle `h` goes: only HMAC-SHA256 on a
/// symmetric key is verified here; holders of a key pair verify with its public
/// parameters.
pub open spec fn verify_route_of(c: KeyStoreConfigView, hk: Seq<u8>, h: Seq<char>, m: u32) -> Result<LocationView, KeygenError> {
    if m != KEYGEN_SIGN_MECHANISM_HMAC_SHA256 {
        Err(KeygenError::InvalidParameter)
    } else {
        target_of(c, hk, h, KeyKind::Key)
    }
}

/// Routes a boundary verify call. Apart from the result stated, the call can only
/// fail as external, while checking the seal.
pub fn verify_route(config: &KeyStoreConfig, hk: &[u8], handle: &KeyHandle, mechanism: u32) -> (r: Result<Location, KeygenError>)
    requires
        hk@.len() <= i32::MAX,
    ensures
        resolved(r) == verify_route_of(config@, hk@, handle@, mechanism)
            || (r == Err::<Location, KeygenError>(KeygenError::External) && mechanism == KEYGEN_SIGN_MECHANISM_HMAC_SHA256
                && seal_checked(handle@, KeyKind::Key)),
{
    if mechanism != KEYGEN_SIGN_MECHANISM_HMAC_SHA256 {
        return Err(KeygenError::InvalidParameter);
    }
    target(config, hk, handle, KeyKind::Key)
}

/// Where a boundary encrypt or decrypt call on key handle `h` goes: AEAD on a
/// symmetric key only.
pub open spec fn encrypt_route_of(c: KeyStoreConfigView, hk: Seq<u8>, h: Seq<char>, m: u32) -> Result<LocationView, KeygenError> {
    if m != KEYGEN_ENCRYPT_MECHANISM_AEAD {
        Err(KeygenError::InvalidParameter)
    } else {
        target_of(c, hk, h, KeyKind::Key)
    }
}

/// Routes a boundary encrypt or decrypt call. Apart from the result stated, the
/// call can only fail as external, while checking the seal.
pub fn encrypt_route(config: &KeyStoreConfig, hk: &[u8], handle: &KeyHandle, mechanism: u32) -> (r: Result<Location, KeygenError>)
    requires
        hk@.len() <= i32::MAX,
    ensures
        resolved(r) == encrypt_route_of(config@, hk@, handle@, mechanism)
            || (r == Err::<Location, KeygenError>(KeygenError::External) && mechanism == KEYGEN_ENCRYPT_MECHANISM_AEAD
                && seal_checked(handle@, KeyKind::Key)),
{
    if mechanism != KEYGEN_ENCRYPT_MECHANISM_AEAD {
        return Err(KeygenError::InvalidParameter);
    }
    target(config, hk, handle, KeyKind::Key)
}

/// At the boundary, a mechanism of one family on a key of the other is an
/// invalid parameter whatever the configuration and whichever key sealed the
/// handle: neither the seal check nor the key's location is reached, so no
/// backend is.
pub proof fn boundary_mismatch_is_refused(c: KeyStoreConfigView, hk: Seq<u8>, hk2: Seq<u8>, id: Seq<char>, rsa_digest: Option<u32>)
    ensures
        sign_route_of(c, hk, handle_text(hk2, KeyKind::KeyPair, id), KEYGEN_SIGN_MECHANISM_HMAC_SHA256, rsa_digest)
            == Err::<(LocationView, SignMechanism), KeygenError>(KeygenError::InvalidParameter),
        !sign_route_seal_checked(handle_text(hk2, KeyKind::KeyPair, id), KEYGEN_SIGN_MECHANISM_HMAC_SHA256, rsa_digest),
        sign_route_of(c, hk, handle_text(hk2, KeyKind::Key, id), KEYGEN_SIGN_MECHANISM_ECDSA, rsa_digest)
            == Err::<(LocationView, SignMechanism), KeygenError>(KeygenError::InvalidParameter),
        !sign_route_seal_checked(handle_text(hk2, KeyKind::Key, id), KEYGEN_SIGN_MECHANISM_ECDSA, rsa_digest),
        sign_route_of(c, hk, handle_text(hk2, KeyKind::Key, id), KEYGEN_SIGN_MECHANISM_RSA_PKCS1, rsa_digest)
            == Err::<(LocationView, SignMechanism), KeygenError>(KeygenError::InvalidParameter),
        !sign_route_seal_checked(handle_text(hk2, KeyKind::Key, id), KEYGEN_SIGN_MECHANISM_RSA_PKCS1, rsa_digest),
        verify_route_of(c, hk, handle_text(hk2, KeyKind::KeyPair, id), KEYGEN_SIGN_MECHANISM_HMAC_SHA256)
            == Err::<LocationView, KeygenError>(KeygenError::InvalidParameter),
        !seal_checked(handle_text(hk2, KeyKind::KeyPair, id), KeyKind::Key),
        encrypt_route_of(c, hk, handle_text(hk2, KeyKind::KeyPair, id), KEYGEN_ENCRYPT_MECHANISM_AEAD)
            == Err::<LocationView, KeygenError>(KeygenError::InvalidParameter),
{
    handle_round_trip(hk2, KeyKind::KeyPair, id);
    handle_round_trip(hk2, KeyKind::Key, id);
}

/// A caller's output buffer: `data` is `None` when the caller passed none, and
/// otherwise holds as many bytes as the caller provided; `len` is the length
/// reported back.
pub struct OutputBuffer {
    pub data: Option<Vec<u8>>,
    pub len: usize,
}

pub open spec fn bytes_of(o: Option<Vec<u8>>) -> Option<Seq<u8>> {
    match o {
        Some(v) => Some(v@),
        None => None,
    }
}

/// Whether delivering `produced` into `data` succeeds: without a buffer the call
/// only reports the length; a buffer shorter than `produced` is refused.
pub open spec fn delivery_result(produced: Seq<u8>, data: Option<Seq<u8>>) -> Result<(), KeygenError> {
    match data {
        Some(d) => if d.len() < produced.len() {
            Err(KeygenError::InvalidParameter)
        } else {
            Ok(())
        },
        None => Ok(()),
    }
}

/// The buffer after delivery: `produced` written at its start, the rest untouched.
pub open spec fn delivered(produced: Seq<u8>, data: Option<Seq<u8>>) -> Option<Seq<u8>> {
    match data {
        Some(d) => if d.len() < produced.len() {
            Some(d)
        } else {
            Some(produced + d.subrange(produced.len() as int, d.len() as int))
        },
        None => None,
    }
}

/// Delivers `produced` to a caller's buffer in the two-phase protocol: the needed
/// length is always reported; the bytes are written only into a buffer large enough.
pub fn fill_output(produced: &Vec<u8>, out: &mut OutputBuffer) -> (r: Result<(), KeygenError>)
    ensures
        r == delivery_result(produced@, bytes_of(old(out).data)),
        final(out).len == produced@.len(),
        bytes_of(final(out).data) == delivered(produced@, bytes_of(old(out).data)),
{
    out.len = produced.len();
    match &mut out.data {
        None => Ok(()),
        Some(buf) => {
            if buf.len() < produced.len() {
                return Err(KeygenError::InvalidParameter);
            }
            let ghost original = buf@;
            let mut i: usize = 0;
            while i < produced.len()
                invariant
                    produced@.len() <= original.len(),
                    buf@.len() == original.len(),
                    0 <= i <= produced@.len(),
                    forall|j: int| 0 <= j < i ==> buf@[j] == produced@[j],
                    forall|j: int| i <= j < original.len() ==> buf@[j] == original[j],
                decreases produced.len() - i,
            {
                buf.set(i, produced[i]);
                i = i + 1;
            }
            assert(buf@ =~= produced@ + original.subrange(produced@.len() as int, original.len() as int));
            Ok(())
        },
    }
}

/// The two-phase protocol: without a buffer the exact length is reported; a
/// buffer of exactly that length receives the bytes; one byte less is refused.
pub proof fn two_phase_delivery(produced: Seq<u8>, exact: Seq<u8>, short: Seq<u8>)
    requires
        exact.len() == produced.len(),
        short.len() + 1 == produced.len(),
    ensures
        delivery_result(produced, None) is Ok,
        delivered(produced, None) is None,
        delivery_result(produced, Some(exact)) is Ok,
        delivered(produced, Some(exact)) == Some(produced),
        delivery_result(produced, Some(short)) == Err::<(), KeygenError>(KeygenError::InvalidParameter),
{
    assert(produced + exact.subrange(produced.len() as int, exact.len() as int) =~= produced);
}

/// The two phases of a deterministic mechanism: the second call produces what the
/// first one measured, so a buffer of the reported length receives it in full,
/// and a buffer one byte shorter is refused.
pub proof fn two_phase_deterministic(first: Seq<u8>, second: Seq<u8>, exact: Seq<u8>, short: Seq<u8>)
    requires
        second == first,
        exact.len() == first.len(),
        short.len() + 1 == first.len(),
    ensures
        delivery_result(first, None) is Ok,
        delivery_result(second, Some(exact)) is Ok,
        delivered(second, Some(exact)) == Some(second),
        delivery_result(second, Some(short)) == Err::<(), KeygenError>(KeygenError::InvalidParameter),
{
    two_phase_delivery(second, exact, short);
}

/// Two-phase delivery of HMAC-SHA256 signatures: both calls produce the MAC of
/// the same key and digest, so the reported length is exact.
pub proof fn two_phase_hmac_sign(key: Seq<u8>, digest: Seq<u8>, first: Seq<u8>, second: Seq<u8>, exact: Seq<u8>, short: Seq<u8>)
    requires
        first == hmac_sha256_of(key, digest),
        second == hmac_sha256_of(key, digest),
        exact.len() == first.len(),
        short.len() + 1 == first.len(),
    ensures
        delivery_result(first, None) is Ok,
        delivery_result(second, Some(exact)) is Ok,
        delivered(second, Some(exact)) == Some(second),
        delivery_result(second, Some(short)) == Err::<(), KeygenError>(KeygenError::InvalidParameter),
{
    two_phase_deterministic(first, second, exact, short);
}

/// Two-phase delivery of RSA PKCS#1 signatures: both calls produce the signature
/// of the same key, digest algorithm and digest, so the reported length is exact.
pub proof fn two_phase_rsa_pkcs1_sign(
    pem: Seq<u8>,
    md: RsaPkcs1MessageDigest,
    digest: Seq<u8>,
    first: Seq<u8>,
    second: Seq<u8>,
    exact: Seq<u8>,
    short: Seq<u8>,
)
    requires
        first == rsa_pkcs1_signature_of(pem, md, digest),
        second == rsa_pkcs1_signature_of(pem, md, digest),
        exact.len() == first.len(),
        short.len() + 1 == first.len(),
    ensures
        delivery_result(first, None) is Ok,
        delivery_result(second, Some(exact)) is Ok,
        delivered(second, Some(exact)) == Some(second),
        delivery_result(second, Some(short)) == Err::<(), KeygenError>(KeygenError::InvalidParameter),
{
    two_phase_deterministic(first, second, exact, short);
}

/// Two-phase delivery of ECDSA signatures: they are randomized, but every
/// signature of one key has the same length, so a buffer of the length the first
/// call reported receives the second call's signature in full, and a buffer one
/// byte shorter is refused.
pub proof fn two_phase_ecdsa_sign(pem: Seq<u8>, first: Seq<u8>, second: Seq<u8>, exact: Seq<u8>, short: Seq<u8>)
    requires
        first.len() == ecdsa_signature_len(ec_order_bits_of(pem)),
        second.len() == ecdsa_signature_len(ec_order_bits_of(pem)),
        exact.len() == first.len(),
        short.len() + 1 == first.len(),
    ensures
        delivery_result(first, None) is Ok,
        delivery_result(second, Some(exact)) is Ok,
        delivered(second, Some(exact)) == Some(second),
        delivery_result(second, Some(short)) == Err::<(), KeygenError>(KeygenError::InvalidParameter),
{
    two_phase_delivery(second, exact, short);
}

} // verus!
