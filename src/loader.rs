//! The key-material loader: from a loaded key record to the key handle,
//! its metadata and its certificate.
use vstd::prelude::*;
use crate::error::{AttestError, ErrorKind, FailedStep};
use crate::model::KeyEntry;

verus! {

/// What a load yields: the record lock `G`, the key handle bytes, the
/// certificate bytes and the key handle's metadata `M`; or the error. A load
/// that failed (for want of permission, or of the record) holds no lock, and
/// a record without both a key handle and a certificate is an invalid
/// argument, its lock released.
pub open spec fn blob_and_cert_of<G, M>(loaded: Result<(G, KeyEntry<M>), ErrorKind>) -> Result<
    (G, Vec<u8>, Vec<u8>, M),
    AttestError,
> {
    match loaded {
        Err(kind) => Err(AttestError { kind, step: FailedStep::LoadKeyEntry }),
        Ok((guard, entry)) => match entry.key_blob_info {
            None => Err(
                AttestError { kind: ErrorKind::InvalidArgument, step: FailedStep::MissingKeyBlob },
            ),
            Some((blob, metadata)) => match entry.cert {
                None => Err(
                    AttestError {
                        kind: ErrorKind::InvalidArgument,
                        step: FailedStep::MissingCertificate,
                    },
                ),
                Some(cert) => Ok((guard, blob, cert, metadata)),
            },
        },
    }
}

/// Takes the key handle, its metadata and the certificate out of a key
/// record loaded for use as an attestation key. `loaded` is the key store's
/// answer to a load of the record under its lock, with the use-permission
/// check made as part of the load.
pub fn load_attest_key_blob_and_cert<G, M>(loaded: Result<(G, KeyEntry<M>), ErrorKind>) -> (r:
    Result<(G, Vec<u8>, Vec<u8>, M), AttestError>)
    ensures
        r == blob_and_cert_of(loaded),
{
    match loaded {
        Err(kind) => Err(AttestError { kind, step: FailedStep::LoadKeyEntry }),
        Ok((guard, entry)) => {
            let KeyEntry { key_blob_info, cert } = entry;
            match key_blob_info {
                None => Err(
                    AttestError {
                        kind: ErrorKind::InvalidArgument,
                        step: FailedStep::MissingKeyBlob,
                    },
                ),
                Some((blob, metadata)) => match cert {
                    None => Err(
                        AttestError {
                            kind: ErrorKind::InvalidArgument,
                            step: FailedStep::MissingCertificate,
                        },
                    ),
                    Some(cert) => Ok((guard, blob, cert, metadata)),
                },
            }
        },
    }
}

} // verus!
