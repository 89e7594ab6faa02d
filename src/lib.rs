//! Attestation key resolution: decides which attestation identity signs a
//! newly created key, and turns what the key store and the remote
//! provisioning services hand back into one `AttestationKeyInfo`.
//!
//! The services themselves (key storage with its permission check, the two
//! remote provisioning protocols, the certificate subject parser and the
//! runtime feature flag) are driven by the caller; every decision taken on
//! their answers is made here.
pub mod model;
pub mod error;
pub mod selector;
pub mod loader;
pub mod assembler;
pub mod laws;
