//! A registry of WebAssembly attestation-verifier components, keyed by the
//! SHA-256 digest of their bytes, and the decisions around running them.

pub mod component_id;
pub mod engine;
pub mod config;
pub mod registry;
pub mod json;
pub mod evidence;
pub mod driver;
pub mod laws;
