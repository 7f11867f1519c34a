use vstd::prelude::*;

use crate::distinct_keys;
use crate::error::VaultierError;

verus! {

/// Options for configuring a secret's metadata: version retention, a
/// check-and-set requirement, a deletion-after duration, and custom tags.
/// A pure value object; each field that stays unset leaves the backing
/// store's own configuration in force.
#[derive(Debug, Clone, PartialEq, Eq)]
pub struct Metadata {
    /// The number of versions the store keeps per key.
    pub max_versions: Option<u32>,
    /// Whether every write to the key must state the expected version.
    pub cas_required: bool,
    /// A duration string after which new versions are deleted.
    pub delete_version_after: Option<String>,
    /// Arbitrary key-value tags describing the secret.
    pub custom_metadata: Option<Vec<(String, String)>>,
}

impl Default for Metadata {
    /// No retention count, no check-and-set requirement, no deletion
    /// duration, no tags.
    fn default() -> (r: Self)
        ensures
            r.max_versions is None,
            !r.cas_required,
            r.delete_version_after is None,
            r.custom_metadata is None,
            r.wf(),
    {
        Metadata {
            max_versions: None,
            cas_required: false,
            delete_version_after: None,
            custom_metadata: None,
        }
    }
}

impl Metadata {
    /// What every value of this type built through its constructors
    /// satisfies: the custom tags, when set, carry each key once, as the
    /// entries of a map do.
    pub open spec fn wf(self) -> bool {
        self.custom_metadata matches Some(tags) ==> distinct_keys(tags@)
    }

    /// Sets the number of versions to keep; all other options stay as they
    /// were.
    pub fn max_versions(self, max_versions: u32) -> (r: Self)
        ensures
            r.max_versions == Some(max_versions),
            r.cas_required == self.cas_required,
            r.delete_version_after == self.delete_version_after,
            r.custom_metadata == self.custom_metadata,
            r.wf() == self.wf(),
    {
        Metadata {
            max_versions: Some(max_versions),
            cas_required: self.cas_required,
            delete_version_after: self.delete_version_after,
            custom_metadata: self.custom_metadata,
        }
    }

    /// Sets the check-and-set requirement; all other options stay as they
    /// were.
    pub fn cas_required(self, cas_required: bool) -> (r: Self)
        ensures
            r.max_versions == self.max_versions,
            r.cas_required == cas_required,
            r.delete_version_after == self.delete_version_after,
            r.custom_metadata == self.custom_metadata,
            r.wf() == self.wf(),
    {
        Metadata {
            max_versions: self.max_versions,
            cas_required,
            delete_version_after: self.delete_version_after,
            custom_metadata: self.custom_metadata,
        }
    }

    /// Sets the deletion-after duration; all other options stay as they
    /// were.
    pub fn delete_version_after(self, delete_version_after: String) -> (r: Self)
        ensures
            r.max_versions == self.max_versions,
            r.cas_required == self.cas_required,
            r.delete_version_after == Some(delete_version_after),
            r.custom_metadata == self.custom_metadata,
            r.wf() == self.wf(),
    {
        Metadata {
            max_versions: self.max_versions,
            cas_required: self.cas_required,
            delete_version_after: Some(delete_version_after),
            custom_metadata: self.custom_metadata,
        }
    }

    /// Sets the custom tags; all other options stay as they were.  The
    /// tags must carry each key once, as the map they stand for does.
    pub fn custom_metadata(self, custom_metadata: Vec<(String, String)>) -> (r: Self)
        requires
            distinct_keys(custom_metadata@),
        ensures
            r.max_versions == self.max_versions,
            r.cas_required == self.cas_required,
            r.delete_version_after == self.delete_version_after,
            r.custom_metadata == Some(custom_metadata),
            r.wf(),
    {
        Metadata {
            max_versions: self.max_versions,
            cas_required: self.cas_required,
            delete_version_after: self.delete_version_after,
            custom_metadata: Some(custom_metadata),
        }
    }
}

/// Whether a status answers the metadata call with success; only this
/// status lets the response body be decoded.
pub fn is_success(status: u16) -> (r: bool)
    ensures
        r <==> status == 200,
{
    status == 200
}

/// The domain error for a metadata call that came back with a non-success
/// status: the status and the response body, kept as the message.
pub fn api_failure(status: u16, message: String) -> (e: VaultierError)
    ensures
        e matches VaultierError::Api { status: s, message: m } && s == status && m == message,
{
    VaultierError::Api { status, message }
}

} // verus!
