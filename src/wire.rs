use vstd::prelude::*;
use crate::engine::{CreateKeyValue, RsaPkcs1MessageDigest, SignMechanism};
use crate::error::KeygenError;
use crate::text::{chars_are, chars_of, copy_bytes};

verus! {

/// The algorithm-tagged parameters of a sign request body.
#[derive(Clone, Debug)]
pub enum SignParameters {
    Ecdsa { digest: Vec<u8> },
    RsaPkcs1 { message_digest_algorithm: String, message: Vec<u8> },
    HmacSha256 { message: Vec<u8> },
}

/// The body of a request to create a symmetric key: exactly one of the two
/// sources is given.
#[derive(Clone, Debug)]
pub struct CreateKeyRequest {
    pub id: String,
    pub generate_key_len: Option<usize>,
    pub import_key_bytes: Option<Vec<u8>>,
}

/// The wire name of a message digest algorithm.
pub open spec fn digest_name(d: RsaPkcs1MessageDigest) -> Seq<char> {
    match d {
        RsaPkcs1MessageDigest::Sha1 => "sha1"@,
        RsaPkcs1MessageDigest::Sha224 => "sha224"@,
        RsaPkcs1MessageDigest::Sha256 => "sha256"@,
        RsaPkcs1MessageDigest::Sha384 => "sha384"@,
        RsaPkcs1MessageDigest::Sha512 => "sha512"@,
    }
}

/// The message digest algorithm that a wire name denotes.
pub open spec fn digest_named(s: Seq<char>) -> Option<RsaPkcs1MessageDigest> {
    if s == "sha1"@ {
        Some(RsaPkcs1MessageDigest::Sha1)
    } else if s == "sha224"@ {
        Some(RsaPkcs1MessageDigest::Sha224)
    } else if s == "sha256"@ {
        Some(RsaPkcs1MessageDigest::Sha256)
    } else if s == "sha384"@ {
        Some(RsaPkcs1MessageDigest::Sha384)
    } else if s == "sha512"@ {
        Some(RsaPkcs1MessageDigest::Sha512)
    } else {
        None
    }
}

impl RsaPkcs1MessageDigest {
    /// The wire name of this algorithm.
    pub fn name(&self) -> (r: String)
        ensures
            r@ == digest_name(*self),
    {
        match self {
            RsaPkcs1MessageDigest::Sha1 => "sha1".to_owned(),
            RsaPkcs1MessageDigest::Sha224 => "sha224".to_owned(),
            RsaPkcs1MessageDigest::Sha256 => "sha256".to_owned(),
            RsaPkcs1MessageDigest::Sha384 => "sha384".to_owned(),
            RsaPkcs1MessageDigest::Sha512 => "sha512".to_owned(),
        }
    }

    /// The algorithm a wire name denotes, if any.
    pub fn from_name(s: &str) -> (r: Option<RsaPkcs1MessageDigest>)
        ensures
            r == digest_named(s@),
    {
        let cs = chars_of(s);
        if chars_are(&cs, "sha1") {
            Some(RsaPkcs1MessageDigest::Sha1)
        } else if chars_are(&cs, "sha224") {
            Some(RsaPkcs1MessageDigest::Sha224)
        } else if chars_are(&cs, "sha256") {
            Some(RsaPkcs1MessageDigest::Sha256)
        } else if chars_are(&cs, "sha384") {
            Some(RsaPkcs1MessageDigest::Sha384)
        } else if chars_are(&cs, "sha512") {
            Some(RsaPkcs1MessageDigest::Sha512)
        } else {
            None
        }
    }
}

/// Every algorithm's wire name reads back as that algorithm.
pub proof fn digest_names_round_trip(d: RsaPkcs1MessageDigest)
    ensures
        digest_named(digest_name(d)) == Some(d),
{
    reveal_strlit("sha1");
    reveal_strlit("sha224");
    reveal_strlit("sha256");
    reveal_strlit("sha384");
    reveal_strlit("sha512");
    assert("sha224"@[4] != "sha256"@[4]);
    assert("sha224"@[3] != "sha384"@[3]);
    assert("sha224"@[3] != "sha512"@[3]);
    assert("sha256"@[3] != "sha384"@[3]);
    assert("sha256"@[3] != "sha512"@[3]);
    assert("sha384"@[3] != "sha512"@[3]);
    assert("sha1"@.len() != "sha224"@.len());
}

pub enum SignParametersView {
    Ecdsa { digest: Seq<u8> },
    RsaPkcs1 { message_digest_algorithm: Seq<char>, message: Seq<u8> },
    HmacSha256 { message: Seq<u8> },
}

impl View for SignParameters {
    type V = SignParametersView;

    open spec fn view(&self) -> SignParametersView {
        match self {
            SignParameters::Ecdsa { digest } => SignParametersView::Ecdsa { digest: digest@ },
            SignParameters::RsaPkcs1 { message_digest_algorithm, message } => SignParametersView::RsaPkcs1 {
                message_digest_algorithm: message_digest_algorithm@,
                message: message@,
            },
            SignParameters::HmacSha256 { message } => SignParametersView::HmacSha256 { message: message@ },
        }
    }
}

/// The wire parameters for signing `digest` with mechanism `m`; RSA-PSS has no
/// wire form and is refused as not implemented.
pub open spec fn sign_parameters_of(m: SignMechanism, digest: Seq<u8>) -> Result<SignParametersView, KeygenError> {
    match m {
        SignMechanism::Ecdsa => Ok(SignParametersView::Ecdsa { digest }),
        SignMechanism::RsaPkcs1 { message_digest } => Ok(
            SignParametersView::RsaPkcs1 { message_digest_algorithm: digest_name(message_digest), message: digest },
        ),
        SignMechanism::RsaPss { .. } => Err(KeygenError::NotImplemented),
        SignMechanism::HmacSha256 => Ok(SignParametersView::HmacSha256 { message: digest }),
    }
}

pub open spec fn params_view(r: Result<SignParameters, KeygenError>) -> Result<SignParametersView, KeygenError> {
    match r {
        Ok(p) => Ok(p@),
        Err(e) => Err(e),
    }
}

/// Builds the parameters of a sign request.
pub fn sign_parameters(mechanism: SignMechanism, digest: &[u8]) -> (r: Result<SignParameters, KeygenError>)
    ensures
        params_view(r) == sign_parameters_of(mechanism, digest@),
{
    match mechanism {
        SignMechanism::Ecdsa => Ok(SignParameters::Ecdsa { digest: copy_bytes(digest) }),
        SignMechanism::RsaPkcs1 { message_digest } => Ok(
            SignParameters::RsaPkcs1 { message_digest_algorithm: message_digest.name(), message: copy_bytes(digest) },
        ),
        SignMechanism::RsaPss { .. } => Err(KeygenError::NotImplemented),
        SignMechanism::HmacSha256 => Ok(SignParameters::HmacSha256 { message: copy_bytes(digest) }),
    }
}

/// The mechanism and message a sign request asks for; `None` when the digest
/// algorithm name is unknown.
pub open spec fn mechanism_of(p: SignParametersView) -> Option<(SignMechanism, Seq<u8>)> {
    match p {
        SignParametersView::Ecdsa { digest } => Some((SignMechanism::Ecdsa, digest)),
        SignParametersView::RsaPkcs1 { message_digest_algorithm, message } => match digest_named(message_digest_algorithm) {
            Some(d) => Some((SignMechanism::RsaPkcs1 { message_digest: d }, message)),
            None => None,
        },
        SignParametersView::HmacSha256 { message } => Some((SignMechanism::HmacSha256, message)),
    }
}

/// Reads the mechanism and message out of a sign request's parameters.
pub fn sign_mechanism(params: &SignParameters) -> (r: Option<(SignMechanism, Vec<u8>)>)
    ensures
        match mechanism_of(params@) {
            Some(m) => r is Some && r->Some_0.0 == m.0 && r->Some_0.1@ == m.1,
            None => r is None,
        },
{
    match params {
        SignParameters::Ecdsa { digest } => Some((SignMechanism::Ecdsa, digest.clone())),
        SignParameters::RsaPkcs1 { message_digest_algorithm, message } => {
            match RsaPkcs1MessageDigest::from_name(message_digest_algorithm.as_str()) {
                Some(d) => Some((SignMechanism::RsaPkcs1 { message_digest: d }, message.clone())),
                None => None,
            }
        },
        SignParameters::HmacSha256 { message } => Some((SignMechanism::HmacSha256, message.clone())),
    }
}

/// A sign request built by the client asks the server for the same mechanism
/// and message.
pub proof fn sign_parameters_round_trip(m: SignMechanism, digest: Seq<u8>)
    requires
        !(m is RsaPss),
    ensures
        sign_parameters_of(m, digest) is Ok,
        mechanism_of(sign_parameters_of(m, digest)->Ok_0) == Some((m, digest)),
{
    if let SignMechanism::RsaPkcs1 { message_digest } = m {
        digest_names_round_trip(message_digest);
    }
}

/// Builds the body of a request to create a symmetric key.
pub fn create_key_request(id: &str, value: CreateKeyValue) -> (r: CreateKeyRequest)
    ensures
        r.id@ == id@,
        match value {
            CreateKeyValue::Generate { length } => r.generate_key_len == Some(length) && r.import_key_bytes is None,
            CreateKeyValue::Import { bytes } => r.generate_key_len is None && r.import_key_bytes is Some
                && r.import_key_bytes->Some_0@ == bytes@,
        },
{
    match value {
        CreateKeyValue::Generate { length } => CreateKeyRequest {
            id: id.to_owned(),
            generate_key_len: Some(length),
            import_key_bytes: None,
        },
        CreateKeyValue::Import { bytes } => CreateKeyRequest {
            id: id.to_owned(),
            generate_key_len: None,
            import_key_bytes: Some(bytes),
        },
    }
}

/// The key source a create request names: exactly one of the two must be given.
pub fn create_key_value(req: &CreateKeyRequest) -> (r: Result<CreateKeyValue, KeygenError>)
    ensures
        match (req.generate_key_len, req.import_key_bytes) {
            (Some(n), None) => r is Ok && (r->Ok_0 matches CreateKeyValue::Generate { length } && length == n),
            (None, Some(b)) => r is Ok && (r->Ok_0 matches CreateKeyValue::Import { bytes } && bytes@ == b@),
            _ => r == Err::<CreateKeyValue, KeygenError>(KeygenError::InvalidParameter),
        },
{
    match (&req.generate_key_len, &req.import_key_bytes) {
        (Some(n), None) => Ok(CreateKeyValue::Generate { length: *n }),
        (None, Some(b)) => Ok(CreateKeyValue::Import { bytes: b.clone() }),
        _ => Err(KeygenError::InvalidParameter),
    }
}

} // verus!
