//! Laws that tie the loader and the assembler together.
use vstd::prelude::*;
use crate::assembler::{user_generated_of, AttestationKeyInfo};
use crate::error::{AttestError, ErrorKind, FailedStep};
use crate::loader::blob_and_cert_of;
use crate::model::KeyEntry;

verus! {

/// A record holding key handle `handle` with metadata `metadata` and
/// certificate `cert`, whose subject parses to `subject`, yields the
/// user-generated attestation key with exactly that handle, metadata and
/// subject, under the lock taken at load.
pub proof fn load_then_assemble_round_trip<G, M>(
    guard: G,
    handle: Vec<u8>,
    metadata: M,
    cert: Vec<u8>,
    subject: Vec<u8>,
)
    ensures
        blob_and_cert_of(
            Ok((guard, (KeyEntry { key_blob_info: Some((handle, metadata)), cert: Some(cert) }))),
        ) == Ok::<_, AttestError>((guard, handle, cert, metadata)),
        user_generated_of(guard, handle, metadata, Some(subject)) == Ok::<_, AttestError>(
            (AttestationKeyInfo::UserGenerated {
                key_id_guard: guard,
                blob: handle,
                blob_metadata: metadata,
                issuer_subject: subject,
            }),
        ),
{
}

/// A loaded record without a key handle is an invalid argument, whatever
/// certificate it holds: no empty handle stands in for the missing one.
pub proof fn missing_key_handle_is_invalid_argument<G, M>(guard: G, cert: Option<Vec<u8>>)
    ensures
        blob_and_cert_of::<G, M>(Ok((guard, (KeyEntry { key_blob_info: None, cert })))) == Err::<
            (G, Vec<u8>, Vec<u8>, M),
            _,
        >((AttestError { kind: ErrorKind::InvalidArgument, step: FailedStep::MissingKeyBlob })),
{
}

/// A load that fails (a permission denied, a missing record) fails the
/// request with the same kind, and the result holds no lock.
pub proof fn failed_load_keeps_its_kind<G, M>(kind: ErrorKind)
    ensures
        blob_and_cert_of::<G, M>(Err(kind)) == Err::<(G, Vec<u8>, Vec<u8>, M), _>(
            (AttestError { kind, step: FailedStep::LoadKeyEntry }),
        ),
{
}

} // verus!
