//! Storage resolver: maps a storage-backend selector plus ambient provider
//! settings to a description of the object-storage backend to construct.
//!
//! The description is plain data; the surrounding binary turns it into the
//! concrete object-store client and, where the backend requires signed
//! requests, attaches a signer backed by [`crate::credential::CredentialCache`].

use vstd::prelude::*;

use crate::errors::ResolveError;
use crate::text::str_eq;

verus! {

/// The cloud object-store providers this layer can select among.
#[derive(Clone, Copy, Debug, PartialEq, Eq, Structural)]
pub enum CloudProvider {
    /// The provider whose stores are addressed by `s3` (and kindred) schemes.
    Aws,
    /// The second provider, addressed by `gs`/`gcs` schemes.
    Gcp,
}

/// Description of the object-storage backend to construct: produced from
/// configuration, immutable, passed through unchanged to the catalog
/// resolver and the session.
#[derive(Clone, Debug, PartialEq, Eq)]
pub enum StorageSelector {
    /// An in-memory store; touches no credentials.
    InMemory,
    /// The local filesystem root.
    LocalFilesystem,
    /// A cloud object store. `signed` says whether a credential-cache-backed
    /// signer must be attached to the constructed client.
    CloudObjectStore {
        provider: CloudProvider,
        region: Option<String>,
        endpoint: Option<String>,
        bucket: Option<String>,
        signed: bool,
    },
}

/// Ambient provider settings, already resolved to plain values by the caller
/// (however they were sourced: flags, files or process environment).
#[derive(Debug, PartialEq, Eq)]
pub struct AmbientConfig {
    pub region: Option<String>,
    pub endpoint: Option<String>,
    pub bucket: Option<String>,
}

/// A selector resolves successfully iff it is absent or one of the four
/// recognized names.
pub open spec fn spec_storage_supported(selector: Option<&str>) -> bool {
    match selector {
        None => true,
        Some(s) => s@ == "s3"@ || s@ == "aws"@ || s@ == "gcs"@ || s@ == "file"@,
    }
}

/// Maps the selector to a storage description.
///
/// Absent selects the in-memory store and consults nothing else — in
/// particular no credential state, which this function cannot even reach.
/// `"file"` selects the local filesystem. `"s3"` and `"aws"` select the
/// cloud store configured from the ambient settings, with a signer required.
/// `"gcs"` selects the second provider's store with its own ambient
/// defaults, so the description carries no settings. Every other selector is
/// rejected as unsupported, carrying the selector itself.
pub fn resolve_storage(selector: Option<&str>, ambient: AmbientConfig) -> (r: Result<
    StorageSelector,
    ResolveError,
>)
    ensures
        r is Ok <==> spec_storage_supported(selector),
        selector is None ==> r == Ok::<StorageSelector, ResolveError>(StorageSelector::InMemory),
        selector matches Some(s) && s@ == "file"@ ==> r == Ok::<StorageSelector, ResolveError>(StorageSelector::LocalFilesystem),
        selector matches Some(s) && (s@ == "s3"@ || s@ == "aws"@) ==> r == Ok::<StorageSelector, ResolveError>(
            StorageSelector::CloudObjectStore {
                provider: CloudProvider::Aws,
                region: ambient.region,
                endpoint: ambient.endpoint,
                bucket: ambient.bucket,
                signed: true,
            },
        ),
        selector matches Some(s) && s@ == "gcs"@ ==> r == Ok::<StorageSelector, ResolveError>(
            StorageSelector::CloudObjectStore {
                provider: CloudProvider::Gcp,
                region: None,
                endpoint: None,
                bucket: None,
                signed: false,
            },
        ),
        !spec_storage_supported(selector) ==> (r matches Err(ResolveError::UnsupportedStorage(n))
            && n@ == selector->0@),
{
    proof {
        reveal_strlit("s3");
        reveal_strlit("aws");
        reveal_strlit("gcs");
        reveal_strlit("file");
        assert("s3"@.len() == 2);
        assert("aws"@.len() == 3);
        assert("gcs"@.len() == 3);
        assert("file"@.len() == 4);
        assert("gcs"@[0] == 'g');
        assert("aws"@[0] == 'a');
    }
    match selector {
        None => Ok(StorageSelector::InMemory),
        Some(s) => {
            if str_eq(s, "s3") || str_eq(s, "aws") {
                Ok(
                    StorageSelector::CloudObjectStore {
                        provider: CloudProvider::Aws,
                        region: ambient.region,
                        endpoint: ambient.endpoint,
                        bucket: ambient.bucket,
                        signed: true,
                    },
                )
            } else if str_eq(s, "gcs") {
                Ok(
                    StorageSelector::CloudObjectStore {
                        provider: CloudProvider::Gcp,
                        region: None,
                        endpoint: None,
                        bucket: None,
                        signed: false,
                    },
                )
            } else if str_eq(s, "file") {
                Ok(StorageSelector::LocalFilesystem)
            } else {
                Err(ResolveError::UnsupportedStorage(s.to_owned()))
            }
        },
    }
}

} // verus!

