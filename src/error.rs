use vstd::prelude::*;

verus! {

/// Why a configuration cannot serve a key identifier.
#[derive(Clone, Copy, Debug, PartialEq, Eq, Structural)]
pub enum PolicyError {
    /// A preloaded PKCS#11 key was requested, but no PKCS#11 library is configured.
    Pkcs11ParametersRequired,
    /// Neither PKCS#11 nor a home directory is configured.
    NoWayToCreateKeys,
}

/// Failures of the key engine.
#[derive(Clone, Copy, Debug, PartialEq, Eq, Structural)]
pub enum KeygenError {
    /// A missing, malformed or oversized input supplied by the caller.
    InvalidParameter,
    /// No backend can serve the key under the current configuration.
    Policy(PolicyError),
    /// The key's location holds no key.
    NotFound,
    /// A recognized mechanism that this engine deliberately does not serve.
    NotImplemented,
    /// A backend or cryptographic library failure.
    External,
}

/// The closed set of codes surfaced across the plugin boundary.
#[derive(Clone, Copy, Debug, PartialEq, Eq, Structural)]
pub enum ErrorCode {
    Success,
    InvalidParameter,
    External,
}

pub open spec fn code_of_spec(r: Result<(), KeygenError>) -> ErrorCode {
    match r {
        Ok(()) => ErrorCode::Success,
        Err(KeygenError::External) => ErrorCode::External,
        Err(_) => ErrorCode::InvalidParameter,
    }
}

/// Normalizes an engine result to the boundary's error code: policy, missing-key
/// and not-implemented failures are the caller's fault, like invalid parameters.
pub fn code_of(r: Result<(), KeygenError>) -> (c: ErrorCode)
    ensures
        c == code_of_spec(r),
{
    match r {
        Ok(()) => ErrorCode::Success,
        Err(KeygenError::External) => ErrorCode::External,
        Err(_) => ErrorCode::InvalidParameter,
    }
}

} // verus!
