use attest_key_select::assembler::{
    assemble_user_generated, remote_provisioned_outcome, rkpd_outcome, AttestationKeyInfo,
};
use attest_key_select::error::{AttestError, ErrorKind, FailedStep};
use attest_key_select::loader::load_attest_key_blob_and_cert;
use attest_key_select::model::{
    contains_tag, AttestationKey, Certificate, Domain, KeyDescriptor, KeyEntry, KeyParameter,
    KeyParameterValue, TAG_ATTESTATION_CHALLENGE, TAG_DEVICE_UNIQUE_ATTESTATION,
};
use attest_key_select::selector::{select_attestation_source, Selection};

fn descriptor(domain: Domain) -> KeyDescriptor {
    KeyDescriptor { domain, nspace: 42, alias: Some("attest".to_string()), blob: None }
}

fn challenge() -> KeyParameter {
    KeyParameter { tag: TAG_ATTESTATION_CHALLENGE, value: KeyParameterValue::Blob(vec![1, 2, 3]) }
}

fn device_unique() -> KeyParameter {
    KeyParameter { tag: TAG_DEVICE_UNIQUE_ATTESTATION, value: KeyParameterValue::BoolValue(true) }
}

fn other_param() -> KeyParameter {
    KeyParameter { tag: 0x1000_0002, value: KeyParameterValue::Integer(3) }
}

fn attestation_key() -> AttestationKey {
    AttestationKey { key_blob: vec![7, 7], attest_key_params: vec![], issuer_subject_name: vec![9] }
}

fn chain() -> Certificate {
    Certificate { encoded_certificate: vec![0x30, 0x82, 0x01] }
}

#[test]
fn contains_tag_finds_only_present_tags() {
    let params = vec![other_param(), challenge()];
    assert!(contains_tag(&params, TAG_ATTESTATION_CHALLENGE));
    assert!(!contains_tag(&params, TAG_DEVICE_UNIQUE_ATTESTATION));
    assert!(!contains_tag(&[], TAG_ATTESTATION_CHALLENGE));
}

#[test]
fn explicit_key_is_loaded_whatever_the_flags() {
    let key = descriptor(Domain::App);
    let param_sets =
        vec![vec![], vec![challenge()], vec![challenge(), device_unique()], vec![device_unique()]];
    for params in &param_sets {
        for flag in [false, true] {
            assert_eq!(select_attestation_source(Some(&key), params, flag), Selection::LoadUserKey);
        }
    }
    let by_id = descriptor(Domain::KeyId);
    assert_eq!(
        select_attestation_source(Some(&by_id), &[challenge()], true),
        Selection::LoadUserKey
    );
}

#[test]
fn blob_domain_attest_key_is_invalid_argument() {
    let key = descriptor(Domain::Blob);
    let expected = Selection::Rejected(AttestError {
        kind: ErrorKind::InvalidArgument,
        step: FailedStep::AttestKeyDomain,
    });
    assert_eq!(select_attestation_source(Some(&key), &[], false), expected);
    assert_eq!(select_attestation_source(Some(&key), &[challenge()], true), expected);
    assert_eq!(
        select_attestation_source(Some(&key), &[challenge(), device_unique()], false),
        expected
    );
}

#[test]
fn no_challenge_gives_no_attestation_key() {
    for flag in [false, true] {
        assert_eq!(select_attestation_source(None, &[], flag), Selection::NoAttestationKey);
        assert_eq!(
            select_attestation_source(None, &[other_param(), device_unique()], flag),
            Selection::NoAttestationKey
        );
    }
}

#[test]
fn device_unique_attestation_never_uses_remote_keys() {
    for flag in [false, true] {
        assert_eq!(
            select_attestation_source(None, &[challenge(), device_unique()], flag),
            Selection::NoAttestationKey
        );
        assert_eq!(
            select_attestation_source(None, &[device_unique(), other_param(), challenge()], flag),
            Selection::NoAttestationKey
        );
    }
}

#[test]
fn feature_flag_switches_remote_source() {
    let params = vec![other_param(), challenge()];
    assert_eq!(select_attestation_source(None, &params, true), Selection::FetchRkpdKey);
    assert_eq!(
        select_attestation_source(None, &params, false),
        Selection::FetchRemoteProvisionedKey
    );
    assert_eq!(select_attestation_source(None, &params, true), Selection::FetchRkpdKey);
}

#[test]
fn load_then_assemble_keeps_handle_metadata_and_lock() {
    let loaded: Result<(u64, KeyEntry<&str>), ErrorKind> = Ok((
        17,
        KeyEntry { key_blob_info: Some((vec![1, 2, 3], "meta")), cert: Some(vec![4, 5]) },
    ));
    let (guard, blob, cert, metadata) = load_attest_key_blob_and_cert(loaded).unwrap();
    assert_eq!(guard, 17);
    assert_eq!(blob, vec![1, 2, 3]);
    assert_eq!(cert, vec![4, 5]);
    assert_eq!(metadata, "meta");
    let info = assemble_user_generated(guard, blob, metadata, Some(vec![0xaa, 0xbb])).unwrap();
    match info {
        AttestationKeyInfo::UserGenerated { key_id_guard, blob, blob_metadata, issuer_subject } => {
            assert_eq!(key_id_guard, 17);
            assert_eq!(blob, vec![1, 2, 3]);
            assert_eq!(blob_metadata, "meta");
            assert_eq!(issuer_subject, vec![0xaa, 0xbb]);
        }
        _ => panic!("expected a user generated key"),
    }
}

#[test]
fn record_without_key_handle_is_invalid_argument() {
    let loaded: Result<(u64, KeyEntry<()>), ErrorKind> =
        Ok((3, KeyEntry { key_blob_info: None, cert: Some(vec![4, 5]) }));
    assert_eq!(
        load_attest_key_blob_and_cert(loaded).err(),
        Some(AttestError { kind: ErrorKind::InvalidArgument, step: FailedStep::MissingKeyBlob })
    );
}

#[test]
fn record_without_certificate_is_invalid_argument() {
    let loaded: Result<(u64, KeyEntry<()>), ErrorKind> =
        Ok((3, KeyEntry { key_blob_info: Some((vec![1], ())), cert: None }));
    assert_eq!(
        load_attest_key_blob_and_cert(loaded).err(),
        Some(AttestError { kind: ErrorKind::InvalidArgument, step: FailedStep::MissingCertificate })
    );
}

#[test]
fn permission_denied_during_load_holds_no_lock() {
    let loaded: Result<(u64, KeyEntry<()>), ErrorKind> = Err(ErrorKind::PermissionDenied);
    let r = load_attest_key_blob_and_cert(loaded);
    assert_eq!(
        r.err(),
        Some(AttestError { kind: ErrorKind::PermissionDenied, step: FailedStep::LoadKeyEntry })
    );
}

#[test]
fn missing_record_is_not_found() {
    let loaded: Result<(u64, KeyEntry<()>), ErrorKind> = Err(ErrorKind::NotFound);
    assert_eq!(
        load_attest_key_blob_and_cert(loaded).err(),
        Some(AttestError { kind: ErrorKind::NotFound, step: FailedStep::LoadKeyEntry })
    );
}

#[test]
fn unparsable_subject_fails_the_request() {
    let r = assemble_user_generated::<u64, ()>(5, vec![1], (), None);
    assert_eq!(
        r.err(),
        Some(AttestError {
            kind: ErrorKind::CertificateParseFailure,
            step: FailedStep::ParseSubject
        })
    );
}

#[test]
fn rkpd_answers_map_to_results() {
    let some = rkpd_outcome::<u64, ()>(Ok(Some((attestation_key(), chain())))).unwrap();
    match some {
        Some(AttestationKeyInfo::RkpdProvisioned { attestation_key, attestation_certs }) => {
            assert_eq!(attestation_key.key_blob, vec![7, 7]);
            assert_eq!(attestation_certs.encoded_certificate, vec![0x30, 0x82, 0x01]);
        }
        _ => panic!("expected a daemon provisioned key"),
    }
    assert!(matches!(rkpd_outcome::<u64, ()>(Ok(None)), Ok(None)));
    assert_eq!(
        rkpd_outcome::<u64, ()>(Err(ErrorKind::RemoteProvisioningFailure)).err(),
        Some(AttestError {
            kind: ErrorKind::RemoteProvisioningFailure,
            step: FailedStep::RkpdKey
        })
    );
}

#[test]
fn cached_remote_answers_map_to_results() {
    let some = remote_provisioned_outcome::<u64, ()>(Ok(Some((9, attestation_key(), chain()))));
    match some.unwrap() {
        Some(AttestationKeyInfo::RemoteProvisioned {
            key_id_guard,
            attestation_key,
            attestation_certs,
        }) => {
            assert_eq!(key_id_guard, 9);
            assert_eq!(attestation_key.issuer_subject_name, vec![9]);
            assert_eq!(attestation_certs.encoded_certificate, vec![0x30, 0x82, 0x01]);
        }
        _ => panic!("expected a cached remote key"),
    }
    assert!(matches!(remote_provisioned_outcome::<u64, ()>(Ok(None)), Ok(None)));
    assert_eq!(
        remote_provisioned_outcome::<u64, ()>(Err(ErrorKind::SystemError)).err(),
        Some(AttestError { kind: ErrorKind::SystemError, step: FailedStep::RemoteProvisionedKey })
    );
}
