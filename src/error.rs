//! Errors of attestation key resolution: a kind, and the step that failed.
use vstd::prelude::*;

verus! {

/// What went wrong, as callers distinguish it.
#[derive(Clone, Copy, Debug, PartialEq, Eq, Structural)]
pub enum ErrorKind {
    /// A disallowed key domain, or a key record missing required parts.
    InvalidArgument,
    /// The caller lacks the right to use the key.
    PermissionDenied,
    /// No such key record.
    NotFound,
    /// A remote provisioning path failed.
    RemoteProvisioningFailure,
    /// The certificate's subject could not be parsed.
    CertificateParseFailure,
    /// Any other failure of a collaborating service.
    SystemError,
}

/// The step of attestation key resolution at which a failure arose.
#[derive(Clone, Copy, Debug, PartialEq, Eq, Structural)]
pub enum FailedStep {
    /// An explicit attestation key was given in a domain that cannot hold one.
    AttestKeyDomain,
    /// Loading the key record, with its use-permission check, failed.
    LoadKeyEntry,
    /// The key record was loaded but held no key handle.
    MissingKeyBlob,
    /// The key record was loaded but held no certificate.
    MissingCertificate,
    /// The certificate's subject could not be parsed.
    ParseSubject,
    /// Fetching a key from the remote provisioning daemon failed.
    RkpdKey,
    /// Fetching a locally cached remotely provisioned key failed.
    RemoteProvisionedKey,
}

/// An error of attestation key resolution.
#[derive(Clone, Copy, Debug, PartialEq, Eq, Structural)]
pub struct AttestError {
    pub kind: ErrorKind,
    pub step: FailedStep,
}

} // verus!
