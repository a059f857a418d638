use vstd::prelude::*;
use crate::text::{chars_are, chars_of};

verus! {

/// The identifier of a device.
#[derive(Clone, Debug)]
pub struct DeviceId(pub String);

/// The identifier of a module on a device.
#[derive(Clone, Debug)]
pub struct ModuleId(pub String);

/// The generation identifier of a module.
#[derive(Clone, Debug)]
pub struct GenId(pub String);

/// The kinds of identity.
#[derive(Clone, Copy, Debug, PartialEq, Eq, Structural)]
pub enum IdentityType {
    Aziot,
}

/// How an identity authenticates.
#[derive(Clone, Copy, Debug, PartialEq, Eq, Structural)]
pub enum AuthenticationType {
    SaS,
    X509,
}

/// Manual provisioning with a shared access key.
#[derive(Clone, Debug)]
pub struct ManualSaSAuth {
    pub iothub_hostname: String,
    pub device_id: String,
    pub device_id_pk: String,
}

/// Attestation with a symmetric key.
#[derive(Clone, Debug)]
pub struct SymmetricKeyAttestationInfo {
    pub registration_id: String,
    pub symmetric_key: String,
}

/// Who issues each kind of certificate.
#[derive(Clone, Copy, Debug, PartialEq, Eq, Structural)]
pub enum CertificateIssuanceType {
    Dps,
    Est,
}

/// The issuer chosen for each kind of certificate.
#[derive(Clone, Copy, Debug, PartialEq, Eq, Structural)]
pub struct CertificateIssuance {
    pub device_identity: CertificateIssuanceType,
    pub module_identity: CertificateIssuanceType,
    pub module_server: CertificateIssuanceType,
}

/// A PEM-encoded certificate bundle.
#[derive(Clone, Debug, Default)]
pub struct Pem(pub Vec<u8>);

/// Why the identity service could not start.
#[derive(Clone, Copy, Debug, PartialEq, Eq, Structural)]
pub enum InitializeErrorReason {
    InvalidDeviceConfig,
    LoadSettings,
}

impl InitializeErrorReason {
    /// The description of this reason.
    pub fn message(&self) -> (r: String)
        ensures
            r@ == match *self {
                InitializeErrorReason::InvalidDeviceConfig => "Invalid device configuration was provided"@,
                InitializeErrorReason::LoadSettings => "Could not load settings"@,
            },
    {
        match self {
            InitializeErrorReason::InvalidDeviceConfig => "Invalid device configuration was provided".to_owned(),
            InitializeErrorReason::LoadSettings => "Could not load settings".to_owned(),
        }
    }
}

/// The failures of the identity service.
#[derive(Clone, Copy, Debug, PartialEq, Eq, Structural)]
pub enum ErrorKind {
    Initialize(InitializeErrorReason),
}

/// Provisions the device.
#[derive(Debug)]
pub struct Provisioner {}

impl Provisioner {
    pub fn new() -> (r: Result<Provisioner, ErrorKind>)
        ensures
            r is Ok,
    {
        Ok(Provisioner {})
    }

    /// Provisioning reports success.
    pub fn provision() -> (r: Result<bool, ErrorKind>)
        ensures
            r == Ok::<bool, ErrorKind>(true),
    {
        Ok(true)
    }
}

/// The identity service.
#[derive(Debug)]
pub struct Server {}

impl Server {
    pub fn new() -> (r: Result<Server, ErrorKind>)
        ensures
            r is Ok,
    {
        Ok(Server {})
    }
}

/// The oldest TLS version a listener accepts.
#[derive(Clone, Copy, Debug, PartialEq, Eq, Structural)]
pub enum Protocol {
    Tls10,
    Tls11,
    Tls12,
}

/// The lower-case form of a text, as `str::to_lowercase` gives it.
pub uninterp spec fn lower_of(s: Seq<char>) -> Seq<char>;

/// Relies on `str::to_lowercase`: the result depends on the characters alone.
#[verifier::external_body]
fn lowercase(s: &str) -> (r: String)
    ensures
        r@ == lower_of(s@),
{
    s.to_lowercase()
}

/// The protocol a lower-case name denotes.
pub open spec fn protocol_named(l: Seq<char>) -> Option<Protocol> {
    if l == "tls"@ || l == "tls1"@ || l == "tls10"@ || l == "tls1.0"@ || l == "tls1_0"@ || l == "tlsv10"@ {
        Some(Protocol::Tls10)
    } else if l == "tls11"@ || l == "tls1.1"@ || l == "tls1_1"@ || l == "tlsv11"@ {
        Some(Protocol::Tls11)
    } else if l == "tls12"@ || l == "tls1.2"@ || l == "tls1_2"@ || l == "tlsv12"@ {
        Some(Protocol::Tls12)
    } else {
        None
    }
}

pub open spec fn unsupported_message(s: Seq<char>) -> Seq<char> {
    "Unsupported TLS protocol version: "@ + s
}

impl Protocol {
    /// The default minimum version.
    pub fn default() -> (r: Protocol)
        ensures
            r == Protocol::Tls10,
    {
        Protocol::Tls10
    }

    /// The display name of this version.
    pub fn name(&self) -> (r: String)
        ensures
            r@ == match *self {
                Protocol::Tls10 => "TLS 1.0"@,
                Protocol::Tls11 => "TLS 1.1"@,
                Protocol::Tls12 => "TLS 1.2"@,
            },
    {
        match self {
            Protocol::Tls10 => "TLS 1.0".to_owned(),
            Protocol::Tls11 => "TLS 1.1".to_owned(),
            Protocol::Tls12 => "TLS 1.2".to_owned(),
        }
    }

    /// The protocol that an already lower-cased name denotes.
    pub fn from_lowercase(l: &str) -> (r: Option<Protocol>)
        ensures
            r == protocol_named(l@),
    {
        let c = chars_of(l);
        if chars_are(&c, "tls") || chars_are(&c, "tls1") || chars_are(&c, "tls10") || chars_are(&c, "tls1.0")
            || chars_are(&c, "tls1_0") || chars_are(&c, "tlsv10") {
            Some(Protocol::Tls10)
        } else if chars_are(&c, "tls11") || chars_are(&c, "tls1.1") || chars_are(&c, "tls1_1") || chars_are(&c, "tlsv11") {
            Some(Protocol::Tls11)
        } else if chars_are(&c, "tls12") || chars_are(&c, "tls1.2") || chars_are(&c, "tls1_2") || chars_are(&c, "tlsv12") {
            Some(Protocol::Tls12)
        } else {
            None
        }
    }

    /// Reads a protocol name, ignoring case.
    pub fn from_str(s: &str) -> (r: Result<Protocol, String>)
        ensures
            match protocol_named(lower_of(s@)) {
                Some(p) => r == Ok::<Protocol, String>(p),
                None => r is Err && r->Err_0@ == unsupported_message(s@),
            },
    {
        let l = lowercase(s);
        match Protocol::from_lowercase(l.as_str()) {
            Some(p) => Ok(p),
            None => Err("Unsupported TLS protocol version: ".to_owned().concat(s)),
        }
    }
}

} // verus!
