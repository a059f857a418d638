use vstd::prelude::*;
use crate::error::KeygenError;
use crate::handle::{authentic, authenticate, claimed, handle_round_trip, handle_text, KeyHandle, KeyKind};
use crate::location::{resolve, resolved, KeyStoreConfig, KeyStoreConfigView, Location, LocationView};

verus! {

/// Digest algorithms for RSA PKCS#1 v1.5 signatures.
#[derive(Clone, Copy, Debug, PartialEq, Eq, Structural)]
pub enum RsaPkcs1MessageDigest {
    Sha1,
    Sha224,
    Sha256,
    Sha384,
    Sha512,
}

/// Mask generation functions for RSA-PSS signatures.
#[derive(Clone, Copy, Debug, PartialEq, Eq, Structural)]
pub enum RsaPssMaskGenerationFunction {
    Sha1,
    Sha224,
    Sha256,
    Sha384,
    Sha512,
}

/// How to sign.
#[derive(Clone, Copy, Debug, PartialEq, Eq, Structural)]
pub enum SignMechanism {
    Ecdsa,
    RsaPkcs1 { message_digest: RsaPkcs1MessageDigest },
    /// Recognized, but not served: asking for it fails with `NotImplemented`.
    RsaPss { mask_generation_function: RsaPssMaskGenerationFunction, salt_len: usize },
    HmacSha256,
}

/// How to encrypt or decrypt: authenticated encryption with an IV and associated data.
#[derive(Clone, Debug)]
pub enum EncryptMechanism {
    Aead { iv: Vec<u8>, aad: Vec<u8> },
}

/// Where the bytes of a new symmetric key come from.
#[derive(Clone, Debug)]
pub enum CreateKeyValue {
    Generate { length: usize },
    Import { bytes: Vec<u8> },
}

/// The family of keys a signing mechanism applies to.
pub open spec fn sign_kind(m: SignMechanism) -> KeyKind {
    match m {
        SignMechanism::HmacSha256 => KeyKind::Key,
        _ => KeyKind::KeyPair,
    }
}

/// The key that handle `h` names under sealing key `hk`, when it is of family
/// `kind`, and its location: the claimed family is checked first, then the seal,
/// and only then is the location resolved.
pub open spec fn target_of(c: KeyStoreConfigView, hk: Seq<u8>, h: Seq<char>, kind: KeyKind) -> Result<LocationView, KeygenError> {
    match claimed(h) {
        None => Err(KeygenError::InvalidParameter),
        Some(t) => if t.0 != kind {
            Err(KeygenError::InvalidParameter)
        } else if !authentic(hk, t.0, t.1, t.2) {
            Err(KeygenError::InvalidParameter)
        } else {
            resolve(c, t.1)
        },
    }
}

/// Whether checking the seal of `h` is reached for family `kind`: only there can
/// the cryptographic library fail the call.
pub open spec fn seal_checked(h: Seq<char>, kind: KeyKind) -> bool {
    claimed(h) is Some && claimed(h)->Some_0.0 == kind
}

/// Where signing with mechanism `m` through handle `h` goes: the handle must claim
/// a key of the mechanism's family, RSA-PSS is refused as not implemented, the
/// seal must be authentic, and only then is the key's location resolved.
pub open spec fn sign_target_of(c: KeyStoreConfigView, hk: Seq<u8>, h: Seq<char>, m: SignMechanism) -> Result<LocationView, KeygenError> {
    match claimed(h) {
        None => Err(KeygenError::InvalidParameter),
        Some(t) => if t.0 != sign_kind(m) {
            Err(KeygenError::InvalidParameter)
        } else if m is RsaPss {
            Err(KeygenError::NotImplemented)
        } else if !authentic(hk, t.0, t.1, t.2) {
            Err(KeygenError::InvalidParameter)
        } else {
            resolve(c, t.1)
        },
    }
}

/// Whether a sign call through `h` with `m` reaches the seal check.
pub open spec fn sign_seal_checked(h: Seq<char>, m: SignMechanism) -> bool {
    seal_checked(h, sign_kind(m)) && !(m is RsaPss)
}

/// The key that `handle` names, checked to be of family `kind` and sealed under
/// `hk`, and its location. Apart from the result stated, the call can only fail
/// as external, while checking a seal.
pub fn target(config: &KeyStoreConfig, hk: &[u8], handle: &KeyHandle, kind: KeyKind) -> (r: Result<Location, KeygenError>)
    requires
        hk@.len() <= i32::MAX,
    ensures
        resolved(r) == target_of(config@, hk@, handle@, kind)
            || (r == Err::<Location, KeygenError>(KeygenError::External) && seal_checked(handle@, kind)),
{
    let (k, id, mac) = handle.claim()?;
    if k != kind {
        return Err(KeygenError::InvalidParameter);
    }
    if !authenticate(hk, k, id.as_str(), mac.as_str())? {
        return Err(KeygenError::InvalidParameter);
    }
    Location::of(config, id.as_str())
}

/// The location of the key to sign with; a mechanism of the other family is
/// refused before any backend is consulted.
pub fn sign_target(config: &KeyStoreConfig, hk: &[u8], handle: &KeyHandle, mechanism: SignMechanism) -> (r: Result<Location, KeygenError>)
    requires
        hk@.len() <= i32::MAX,
    ensures
        resolved(r) == sign_target_of(config@, hk@, handle@, mechanism)
            || (r == Err::<Location, KeygenError>(KeygenError::External) && sign_seal_checked(handle@, mechanism)),
{
    let (k, id, mac) = handle.claim()?;
    let wanted = match mechanism {
        SignMechanism::HmacSha256 => KeyKind::Key,
        _ => KeyKind::KeyPair,
    };
    if k != wanted {
        return Err(KeygenError::InvalidParameter);
    }
    if let SignMechanism::RsaPss { .. } = mechanism {
        return Err(KeygenError::NotImplemented);
    }
    if !authenticate(hk, k, id.as_str(), mac.as_str())? {
        return Err(KeygenError::InvalidParameter);
    }
    Location::of(config, id.as_str())
}

/// A mechanism of one family on a handle of the other fails with an invalid
/// parameter, whatever the configuration and whichever key sealed the handle:
/// neither the seal check nor any backend is reached.
pub proof fn mismatched_mechanism_is_refused(c1: KeyStoreConfigView, c2: KeyStoreConfigView, hk: Seq<u8>, hk2: Seq<u8>, id: Seq<char>, m: SignMechanism)
    ensures
        sign_target_of(c1, hk, handle_text(hk2, KeyKind::KeyPair, id), SignMechanism::HmacSha256)
            == Err::<LocationView, KeygenError>(KeygenError::InvalidParameter),
        !sign_seal_checked(handle_text(hk2, KeyKind::KeyPair, id), SignMechanism::HmacSha256),
        sign_target_of(c1, hk, handle_text(hk2, KeyKind::Key, id), SignMechanism::Ecdsa)
            == Err::<LocationView, KeygenError>(KeygenError::InvalidParameter),
        !sign_seal_checked(handle_text(hk2, KeyKind::Key, id), SignMechanism::Ecdsa),
        sign_kind(m) == KeyKind::KeyPair ==> sign_target_of(c1, hk, handle_text(hk2, KeyKind::Key, id), m)
            == sign_target_of(c2, hk, handle_text(hk2, KeyKind::Key, id), m),
        sign_kind(m) == KeyKind::Key ==> sign_target_of(c1, hk, handle_text(hk2, KeyKind::KeyPair, id), m)
            == sign_target_of(c2, hk, handle_text(hk2, KeyKind::KeyPair, id), m),
{
    handle_round_trip(hk2, KeyKind::KeyPair, id);
    handle_round_trip(hk2, KeyKind::Key, id);
}

/// A handle made under another sealing key, or altered, is refused: the caller
/// cannot make a handle that the service accepts.
pub proof fn forged_handle_is_refused(c: KeyStoreConfigView, hk: Seq<u8>, h: Seq<char>, kind: KeyKind)
    requires
        claimed(h) is Some,
        !authentic(hk, claimed(h)->Some_0.0, claimed(h)->Some_0.1, claimed(h)->Some_0.2),
    ensures
        target_of(c, hk, h, kind) == Err::<LocationView, KeygenError>(KeygenError::InvalidParameter),
{
}

/// What creating a key if it does not exist does: the key's location, the handle
/// returned, and whether new key material is made there.
pub struct CreatePlan {
    pub location: Location,
    pub handle: KeyHandle,
    pub generate: bool,
}

pub struct CreatePlanView {
    pub location: LocationView,
    pub handle: Seq<char>,
    pub generate: bool,
}

impl View for CreatePlan {
    type V = CreatePlanView;

    open spec fn view(&self) -> CreatePlanView {
        CreatePlanView { location: self.location@, handle: self.handle@, generate: self.generate }
    }
}

/// Creating key `id` of family `kind` where `present` tells whether its location
/// already holds a key: the existing key is kept, otherwise one is generated.
pub open spec fn create_plan_of(c: KeyStoreConfigView, hk: Seq<u8>, kind: KeyKind, id: Seq<char>, present: bool) -> Result<CreatePlanView, KeygenError> {
    match resolve(c, id) {
        Err(e) => Err(e),
        Ok(l) => Ok(CreatePlanView { location: l, handle: handle_text(hk, kind, id), generate: !present }),
    }
}

pub open spec fn planned(r: Result<CreatePlan, KeygenError>) -> Result<CreatePlanView, KeygenError> {
    match r {
        Ok(p) => Ok(p@),
        Err(e) => Err(e),
    }
}

/// Plans creating key `id` of family `kind` unless its location already holds
/// one. Apart from the result stated, the call can only fail as external, while
/// sealing the handle of a key whose location resolves.
pub fn plan_create(config: &KeyStoreConfig, hk: &[u8], kind: KeyKind, id: &str, present: bool) -> (r: Result<CreatePlan, KeygenError>)
    requires
        hk@.len() <= i32::MAX,
    ensures
        planned(r) == create_plan_of(config@, hk@, kind, id@, present)
            || (r == Err::<CreatePlan, KeygenError>(KeygenError::External) && resolve(config@, id@) is Ok),
{
    let location = Location::of(config, id)?;
    let handle = KeyHandle::new(kind, id, hk)?;
    Ok(CreatePlan { location, handle, generate: !present })
}

/// Loading key `id` of family `kind` where `present` tells whether its location
/// holds a key: the handle when it does; a missing key is not found.
pub open spec fn load_of(c: KeyStoreConfigView, hk: Seq<u8>, kind: KeyKind, id: Seq<char>, present: bool) -> Result<Seq<char>, KeygenError> {
    match resolve(c, id) {
        Err(e) => Err(e),
        Ok(_) => if present {
            Ok(handle_text(hk, kind, id))
        } else {
            Err(KeygenError::NotFound)
        },
    }
}

/// Loads an existing key, refusing one whose location holds none. Apart from the
/// result stated, the call can only fail as external, while sealing the handle
/// of a key that is present.
pub fn plan_load(config: &KeyStoreConfig, hk: &[u8], kind: KeyKind, id: &str, present: bool) -> (r: Result<KeyHandle, KeygenError>)
    requires
        hk@.len() <= i32::MAX,
    ensures
        match load_of(config@, hk@, kind, id@, present) {
            Ok(h) => (r is Ok && r->Ok_0@ == h) || r == Err::<KeyHandle, KeygenError>(KeygenError::External),
            Err(e) => r == Err::<KeyHandle, KeygenError>(e),
        },
{
    let _location = Location::of(config, id)?;
    if !present {
        return Err(KeygenError::NotFound);
    }
    KeyHandle::new(kind, id, hk)
}

/// Creating the same key twice gives the same handle at the same location, and
/// the second time, with the key now present, nothing new is generated.
pub proof fn create_is_idempotent(c: KeyStoreConfigView, hk: Seq<u8>, kind: KeyKind, id: Seq<char>, present: bool)
    requires
        create_plan_of(c, hk, kind, id, present) is Ok,
    ensures
        create_plan_of(c, hk, kind, id, true) is Ok,
        create_plan_of(c, hk, kind, id, true)->Ok_0.handle == create_plan_of(c, hk, kind, id, present)->Ok_0.handle,
        create_plan_of(c, hk, kind, id, true)->Ok_0.location == create_plan_of(c, hk, kind, id, present)->Ok_0.location,
        !create_plan_of(c, hk, kind, id, true)->Ok_0.generate,
{
}

} // verus!
