//! A small secrets vault backed by managed cloud primitives: an object store
//! for ciphertext and key material, a key-management service for wrapping data
//! keys, and an infrastructure-as-code service for provisioning.
//!
//! This crate holds the verified core: the envelope-encryption pipeline, the
//! on-disk data format (three sibling objects per secret), the sidecar meta
//! record that doubles as additional authenticated data, and the decision
//! logic of the stack-lifecycle controller. Network and file I/O live outside
//! the library; callers hand the functions here plain values and carry the
//! results to the services.

pub mod config;
pub mod crypto;
pub mod encoding;
pub mod errors;
pub mod keys;
pub mod meta;
pub mod stack;
pub mod value;
pub mod vault;

pub use crate::config::VaultConfig;
pub use crate::errors::VaultError;
pub use crate::stack::{CreateStackResult, UpdateStackResult};
pub use crate::value::Value;
