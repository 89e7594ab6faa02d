//! The result assembler: the one shape in which every source of an
//! attestation key is handed back.
use vstd::prelude::*;
use crate::error::{AttestError, ErrorKind, FailedStep};
use crate::model::{AttestationKey, Certificate};

verus! {

/// The attestation key chosen for a request. `G` is the exclusive lock on a
/// key record, held until the attestation signing is done; `M` is the key
/// handle's metadata, passed through unchanged.
#[derive(Debug)]
pub enum AttestationKeyInfo<G, M> {
    /// A locally cached remotely provisioned key, under its record lock.
    RemoteProvisioned { key_id_guard: G, attestation_key: AttestationKey, attestation_certs: Certificate },
    /// A key handed out by the remote provisioning daemon, which owns its
    /// record.
    RkpdProvisioned { attestation_key: AttestationKey, attestation_certs: Certificate },
    /// A key the user generated, under its record lock, with the subject of
    /// its certificate as issuer for the certificate it will sign.
    UserGenerated { key_id_guard: G, blob: Vec<u8>, blob_metadata: M, issuer_subject: Vec<u8> },
}

/// The user-generated attestation key made of a loaded key handle and the
/// subject parsed from its certificate; no subject is a parse failure.
pub open spec fn user_generated_of<G, M>(
    key_id_guard: G,
    blob: Vec<u8>,
    blob_metadata: M,
    parsed_subject: Option<Vec<u8>>,
) -> Result<AttestationKeyInfo<G, M>, AttestError> {
    match parsed_subject {
        None => Err(
            AttestError {
                kind: ErrorKind::CertificateParseFailure,
                step: FailedStep::ParseSubject,
            },
        ),
        Some(issuer_subject) => Ok(
            AttestationKeyInfo::UserGenerated { key_id_guard, blob, blob_metadata, issuer_subject },
        ),
    }
}

/// Builds the user-generated attestation key from the lock, key handle and
/// metadata of a loaded record and the subject parsed from its certificate
/// (`None` where the certificate's subject could not be parsed).
pub fn assemble_user_generated<G, M>(
    key_id_guard: G,
    blob: Vec<u8>,
    blob_metadata: M,
    parsed_subject: Option<Vec<u8>>,
) -> (r: Result<AttestationKeyInfo<G, M>, AttestError>)
    ensures
        r == user_generated_of(key_id_guard, blob, blob_metadata, parsed_subject),
{
    match parsed_subject {
        None => Err(
            AttestError {
                kind: ErrorKind::CertificateParseFailure,
                step: FailedStep::ParseSubject,
            },
        ),
        Some(issuer_subject) => Ok(
            AttestationKeyInfo::UserGenerated { key_id_guard, blob, blob_metadata, issuer_subject },
        ),
    }
}

/// The outcome of asking the remote provisioning daemon: its key and chain,
/// no key, or its failure kind, annotated with the step.
pub open spec fn rkpd_outcome_of<G, M>(
    answer: Result<Option<(AttestationKey, Certificate)>, ErrorKind>,
) -> Result<Option<AttestationKeyInfo<G, M>>, AttestError> {
    match answer {
        Err(kind) => Err(AttestError { kind, step: FailedStep::RkpdKey }),
        Ok(None) => Ok(None),
        Ok(Some((attestation_key, attestation_certs))) => Ok(
            Some(AttestationKeyInfo::RkpdProvisioned { attestation_key, attestation_certs }),
        ),
    }
}

/// Turns the remote provisioning daemon's answer into the result of the
/// request.
pub fn rkpd_outcome<G, M>(answer: Result<Option<(AttestationKey, Certificate)>, ErrorKind>) -> (r:
    Result<Option<AttestationKeyInfo<G, M>>, AttestError>)
    ensures
        r == rkpd_outcome_of::<G, M>(answer),
{
    match answer {
        Err(kind) => Err(AttestError { kind, step: FailedStep::RkpdKey }),
        Ok(None) => Ok(None),
        Ok(Some((attestation_key, attestation_certs))) => Ok(
            Some(AttestationKeyInfo::RkpdProvisioned { attestation_key, attestation_certs }),
        ),
    }
}

/// The outcome of taking a locally cached remotely provisioned key: the key
/// and chain under their record lock, no key, or the failure kind, annotated
/// with the step.
pub open spec fn remote_provisioned_outcome_of<G, M>(
    answer: Result<Option<(G, AttestationKey, Certificate)>, ErrorKind>,
) -> Result<Option<AttestationKeyInfo<G, M>>, AttestError> {
    match answer {
        Err(kind) => Err(AttestError { kind, step: FailedStep::RemoteProvisionedKey }),
        Ok(None) => Ok(None),
        Ok(Some((key_id_guard, attestation_key, attestation_certs))) => Ok(
            Some(
                AttestationKeyInfo::RemoteProvisioned {
                    key_id_guard,
                    attestation_key,
                    attestation_certs,
                },
            ),
        ),
    }
}

/// Turns the answer of the local remote provisioning cache into the result
/// of the request.
pub fn remote_provisioned_outcome<G, M>(
    answer: Result<Option<(G, AttestationKey, Certificate)>, ErrorKind>,
) -> (r: Result<Option<AttestationKeyInfo<G, M>>, AttestError>)
    ensures
        r == remote_provisioned_outcome_of::<G, M>(answer),
{
    match answer {
        Err(kind) => Err(AttestError { kind, step: FailedStep::RemoteProvisionedKey }),
        Ok(None) => Ok(None),
        Ok(Some((key_id_guard, attestation_key, attestation_certs))) => Ok(
            Some(
                AttestationKeyInfo::RemoteProvisioned {
                    key_id_guard,
                    attestation_key,
                    attestation_certs,
                },
            ),
        ),
    }
}

} // verus!
