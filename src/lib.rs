//! A local key broker: resolves key identifiers to storage locations,
//! dispatches cryptographic operations, and frames its request/response
//! wire protocol.
pub mod error;
pub mod text;
pub mod pkcs11_uri;
pub mod location;
pub mod handle;
pub mod engine;
pub mod abi;
pub mod symmetric;
pub mod client;
pub mod wire;
pub mod server;
pub mod identity;
pub mod key_pair;
