//! Plain-value model of the key descriptors, key parameters and stored key
//! entries that attestation key resolution reads.
use vstd::prelude::*;

verus! {

/// The addressing scheme of a key descriptor.
#[derive(Clone, Copy, Debug, PartialEq, Eq, Structural)]
pub enum Domain {
    /// A key owned by the calling application.
    App,
    /// A key reached through a grant.
    Grant,
    /// A key in an SELinux namespace.
    Selinux,
    /// A caller-supplied opaque key blob that the service does not store.
    Blob,
    /// A key addressed by its numeric key id.
    KeyId,
}

/// Identifies a key by domain, namespace and alias, or carries a blob.
#[derive(Clone, Debug)]
pub struct KeyDescriptor {
    pub domain: Domain,
    pub nspace: i64,
    pub alias: Option<String>,
    pub blob: Option<Vec<u8>>,
}

/// Tag of the parameter that carries an attestation challenge (a byte
/// string tag, number 708).
pub const TAG_ATTESTATION_CHALLENGE: i32 = -1879047484;

/// Tag of the parameter that asks for device-unique attestation (a boolean
/// tag, number 720).
pub const TAG_DEVICE_UNIQUE_ATTESTATION: i32 = 1879048912;

/// The value held by a key parameter.
#[derive(Clone, Debug)]
pub enum KeyParameterValue {
    Invalid,
    BoolValue(bool),
    Integer(i32),
    LongInteger(i64),
    DateTime(i64),
    Blob(Vec<u8>),
}

/// One tagged property of a requested key.
#[derive(Clone, Debug)]
pub struct KeyParameter {
    pub tag: i32,
    pub value: KeyParameterValue,
}

/// Whether some parameter of `params` carries `tag`.
pub open spec fn has_tag(params: Seq<KeyParameter>, tag: i32) -> bool {
    exists|i: int| 0 <= i < params.len() && #[trigger] params[i].tag == tag
}

/// Returns whether some parameter of `params` carries `tag`.
pub fn contains_tag(params: &[KeyParameter], tag: i32) -> (r: bool)
    ensures
        r == has_tag(params@, tag),
{
    let mut i: usize = 0;
    while i < params.len()
        invariant
            i <= params@.len(),
            forall|j: int| 0 <= j < i ==> #[trigger] params@[j].tag != tag,
        decreases params@.len() - i,
    {
        if params[i].tag == tag {
            return true;
        }
        i = i + 1;
    }
    false
}

/// A key's attestation signing key as the security hardware takes it.
#[derive(Clone, Debug)]
pub struct AttestationKey {
    pub key_blob: Vec<u8>,
    pub attest_key_params: Vec<KeyParameter>,
    pub issuer_subject_name: Vec<u8>,
}

/// An encoded certificate, or a concatenated certificate chain.
#[derive(Clone, Debug)]
pub struct Certificate {
    pub encoded_certificate: Vec<u8>,
}

/// What the key store hands back for a loaded key record: the key handle
/// with its metadata, and the certificate, each possibly absent.
#[derive(Clone, Debug)]
pub struct KeyEntry<M> {
    pub key_blob_info: Option<(Vec<u8>, M)>,
    pub cert: Option<Vec<u8>>,
}

} // verus!
