//! Telemetry ingestion gateway core: structural validation of telemetry
//! records, a canonical byte serialization that signatures are computed
//! over, Ed25519 signing with a persistent key, and the decision logic of
//! the gateway handler.

pub mod crypto;
pub mod forward;
pub mod gateway;
pub mod json;
pub mod keystore;
pub mod record;
pub mod signer;
pub mod validate;
