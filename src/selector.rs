//! The attestation identity selector: which source supplies the attestation
//! key for a request.
use vstd::prelude::*;
use crate::error::{AttestError, ErrorKind, FailedStep};
use crate::model::{
    contains_tag, has_tag, Domain, KeyDescriptor, KeyParameter, TAG_ATTESTATION_CHALLENGE,
    TAG_DEVICE_UNIQUE_ATTESTATION,
};

verus! {

/// Where the attestation key for a request comes from.
#[derive(Clone, Copy, Debug, PartialEq, Eq, Structural)]
pub enum Selection {
    /// Load the explicitly named key from the key store, checking that the
    /// caller may use it.
    LoadUserKey,
    /// Ask the remote provisioning daemon for a key and its chain.
    FetchRkpdKey,
    /// Take a locally cached remotely provisioned key, under its lock.
    FetchRemoteProvisionedKey,
    /// The new key is created without attestation: no key, and no error.
    NoAttestationKey,
    /// The request cannot be served; nothing is consulted.
    Rejected(AttestError),
}

/// The error of an explicit attestation key given in the `Blob` domain.
pub open spec fn blob_domain_error() -> AttestError {
    AttestError { kind: ErrorKind::InvalidArgument, step: FailedStep::AttestKeyDomain }
}

/// The selection policy, in order of precedence: an explicit key is loaded
/// (unless its domain is `Blob`, which is rejected); without one, a
/// challenge that does not ask for device-unique attestation goes to remote
/// provisioning, by the daemon when the feature flag is on and from the local
/// cache when it is off; anything else is created without attestation.
pub open spec fn selection_of(
    explicit: Option<KeyDescriptor>,
    params: Seq<KeyParameter>,
    rkpd_enabled: bool,
) -> Selection {
    match explicit {
        Some(key) => if key.domain == Domain::Blob {
            Selection::Rejected(blob_domain_error())
        } else {
            Selection::LoadUserKey
        },
        None => if has_tag(params, TAG_ATTESTATION_CHALLENGE) && !has_tag(
            params,
            TAG_DEVICE_UNIQUE_ATTESTATION,
        ) {
            if rkpd_enabled {
                Selection::FetchRkpdKey
            } else {
                Selection::FetchRemoteProvisionedKey
            }
        } else {
            Selection::NoAttestationKey
        },
    }
}

/// Whether a selection consults one of the remote provisioning services.
pub open spec fn consults_remote(s: Selection) -> bool {
    s is FetchRkpdKey || s is FetchRemoteProvisionedKey
}

/// Decides where the attestation key for a request comes from, given the
/// explicit attestation key (if any), the requested key's parameters and the
/// current value of the remote provisioning daemon feature flag.
pub fn select_attestation_source(
    attest_key_descriptor: Option<&KeyDescriptor>,
    params: &[KeyParameter],
    rkpd_enabled: bool,
) -> (r: Selection)
    ensures
        r == selection_of(
            match attest_key_descriptor {
                Some(k) => Some(*k),
                None => None,
            },
            params@,
            rkpd_enabled,
        ),
{
    match attest_key_descriptor {
        Some(key) => if key.domain == Domain::Blob {
            Selection::Rejected(
                AttestError { kind: ErrorKind::InvalidArgument, step: FailedStep::AttestKeyDomain },
            )
        } else {
            Selection::LoadUserKey
        },
        None => {
            let challenge_present = contains_tag(params, TAG_ATTESTATION_CHALLENGE);
            let is_device_unique_attestation = contains_tag(params, TAG_DEVICE_UNIQUE_ATTESTATION);
            if challenge_present && !is_device_unique_attestation {
                if rkpd_enabled {
                    Selection::FetchRkpdKey
                } else {
                    Selection::FetchRemoteProvisionedKey
                }
            } else {
                Selection::NoAttestationKey
            }
        },
    }
}

/// An explicit attestation key never leads to remote provisioning, whatever
/// the challenge and device-unique parameters and the feature flag say.
pub proof fn explicit_key_never_consults_remote(
    key: KeyDescriptor,
    params: Seq<KeyParameter>,
    rkpd_enabled: bool,
)
    ensures
        !consults_remote(selection_of(Some(key), params, rkpd_enabled)),
        selection_of(Some(key), params, rkpd_enabled) is LoadUserKey || selection_of(
            Some(key),
            params,
            rkpd_enabled,
        ) is Rejected,
{
}

/// An explicit attestation key in the `Blob` domain is always rejected as an
/// invalid argument, before any service is consulted.
pub proof fn blob_domain_attest_key_rejected(
    key: KeyDescriptor,
    params: Seq<KeyParameter>,
    rkpd_enabled: bool,
)
    requires
        key.domain == Domain::Blob,
    ensures
        selection_of(Some(key), params, rkpd_enabled) == Selection::Rejected(
            (AttestError { kind: ErrorKind::InvalidArgument, step: FailedStep::AttestKeyDomain }),
        ),
{
}

/// Without an explicit key and without an attestation challenge, the key is
/// created without attestation.
pub proof fn no_challenge_means_no_attestation(params: Seq<KeyParameter>, rkpd_enabled: bool)
    requires
        !has_tag(params, TAG_ATTESTATION_CHALLENGE),
    ensures
        selection_of(None, params, rkpd_enabled) == Selection::NoAttestationKey,
{
}

/// A request for device-unique attestation is never served by a shared
/// remotely provisioned key.
pub proof fn device_unique_never_consults_remote(params: Seq<KeyParameter>, rkpd_enabled: bool)
    requires
        has_tag(params, TAG_ATTESTATION_CHALLENGE),
        has_tag(params, TAG_DEVICE_UNIQUE_ATTESTATION),
    ensures
        !consults_remote(selection_of(None, params, rkpd_enabled)),
        selection_of(None, params, rkpd_enabled) == Selection::NoAttestationKey,
{
}

/// Where remote provisioning is selected, the feature flag alone decides
/// between the daemon and the local cache: on gives the daemon, off gives the
/// cache, with nothing carried over from an earlier selection.
pub proof fn feature_flag_switches_remote_source(params: Seq<KeyParameter>)
    requires
        has_tag(params, TAG_ATTESTATION_CHALLENGE),
        !has_tag(params, TAG_DEVICE_UNIQUE_ATTESTATION),
    ensures
        selection_of(None, params, true) == Selection::FetchRkpdKey,
        selection_of(None, params, false) == Selection::FetchRemoteProvisionedKey,
{
}

} // verus!
