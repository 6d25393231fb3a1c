//! Catalog resolver: a pure decision procedure from an opaque catalog
//! locator string to the configured description of one catalog client.
//!
//! Classification is by locator prefix, in a fixed order where the first
//! matching rule wins and the generic REST backend is the catch-all. The two
//! managed REST backends additionally complete a bare host from the ambient
//! region and carry request-signing material derived from the current
//! credential snapshot. The description is consumed once by the surrounding
//! binary to construct the catalog client, then discarded; it is re-derived
//! on every process start, never memoized.

use vstd::prelude::*;
use vstd::string::StringExecFns;

use crate::credential::CredentialSnapshot;
use crate::errors::CredentialError;
use crate::errors::ResolveError;
use crate::storage::StorageSelector;
use crate::text::spec_starts_with;
use crate::text::str_eq;
use crate::text::str_starts_with;

verus! {

/// The closed set of catalog backends a locator can select.
#[derive(Clone, Copy, Debug, PartialEq, Eq, Structural)]
pub enum CatalogKind {
    /// Metadata files under an object-store root; the locator is that root.
    FileBacked,
    /// A table bucket addressed by its resource ARN; the locator is the ARN.
    ArnTableBucket,
    /// The managed metastore's REST endpoint.
    ManagedMetastore,
    /// The managed table-bucket REST endpoint.
    ManagedTableBucketRest,
    /// Any other locator: a generic REST base path, used as given.
    GenericRest,
}

/// Classification of a locator, evaluated in the fixed rule order: an
/// object-store root first, then an ARN, then the managed-metastore host,
/// then the managed table-bucket REST host, and the generic REST catch-all.
pub open spec fn spec_classify_locator(s: Seq<char>) -> CatalogKind {
    if spec_starts_with(s, "s3://"@) {
        CatalogKind::FileBacked
    } else if spec_starts_with(s, "arn:"@) {
        CatalogKind::ArnTableBucket
    } else if spec_starts_with(s, "https://glue"@) {
        CatalogKind::ManagedMetastore
    } else if spec_starts_with(s, "https://s3tables"@) {
        CatalogKind::ManagedTableBucketRest
    } else {
        CatalogKind::GenericRest
    }
}

/// Classifies a locator into exactly one backend kind.
pub fn classify_locator(locator: &str) -> (k: CatalogKind)
    ensures
        k == spec_classify_locator(locator@),
{
    if str_starts_with(locator, "s3://") {
        CatalogKind::FileBacked
    } else if str_starts_with(locator, "arn:") {
        CatalogKind::ArnTableBucket
    } else if str_starts_with(locator, "https://glue") {
        CatalogKind::ManagedMetastore
    } else if str_starts_with(locator, "https://s3tables") {
        CatalogKind::ManagedTableBucketRest
    } else {
        CatalogKind::GenericRest
    }
}

/// Classification is total and deterministic — it is a function of the
/// locator alone — and respects the rule order: each kind is selected exactly
/// when its rule is the first to match. In particular an ARN-shaped locator
/// never falls through to the generic REST catch-all.
pub proof fn lemma_classification_rule_order(s: Seq<char>)
    ensures
        spec_classify_locator(s) == CatalogKind::FileBacked <==> spec_starts_with(s, "s3://"@),
        spec_classify_locator(s) == CatalogKind::ArnTableBucket <==> (!spec_starts_with(s, "s3://"@)
            && spec_starts_with(s, "arn:"@)),
        spec_classify_locator(s) == CatalogKind::ManagedMetastore <==> (!spec_starts_with(
            s,
            "s3://"@,
        ) && !spec_starts_with(s, "arn:"@) && spec_starts_with(s, "https://glue"@)),
        spec_classify_locator(s) == CatalogKind::ManagedTableBucketRest <==> (!spec_starts_with(
            s,
            "s3://"@,
        ) && !spec_starts_with(s, "arn:"@) && !spec_starts_with(s, "https://glue"@)
            && spec_starts_with(s, "https://s3tables"@)),
        spec_classify_locator(s) == CatalogKind::GenericRest <==> (!spec_starts_with(s, "s3://"@)
            && !spec_starts_with(s, "arn:"@) && !spec_starts_with(s, "https://glue"@)
            && !spec_starts_with(s, "https://s3tables"@)),
        spec_starts_with(s, "arn:"@) ==> spec_classify_locator(s) != CatalogKind::GenericRest,
{
}

/// The two managed REST kinds carry a derived signing key; the others do not.
pub open spec fn spec_needs_signing(k: CatalogKind) -> bool {
    k == CatalogKind::ManagedMetastore || k == CatalogKind::ManagedTableBucketRest
}

/// Whether resolving this locator will read a credential snapshot, so the
/// caller knows to perform the credential hand-out first.
pub fn catalog_needs_credentials(locator: &str) -> (r: bool)
    ensures
        r == spec_needs_signing(spec_classify_locator(locator@)),
{
    match classify_locator(locator) {
        CatalogKind::ManagedMetastore => true,
        CatalogKind::ManagedTableBucketRest => true,
        _ => false,
    }
}

/// Request-signing material: derived from a credential snapshot plus the
/// resolved region and a fixed service identifier, recomputed per
/// catalog-client construction and never persisted.
#[derive(Debug, PartialEq, Eq)]
pub struct SigningKey {
    pub access_key: String,
    pub secret_key: String,
    pub session_token: Option<String>,
    pub region: String,
    pub service: String,
}

/// Combines a credential snapshot with a region and service into the signing
/// key; every field is carried over unchanged.
pub fn derive_signing_key(snapshot: CredentialSnapshot, region: String, service: String) -> (k:
    SigningKey)
    ensures
        k.access_key == snapshot.access_key_id,
        k.secret_key == snapshot.secret_key,
        k.session_token == snapshot.session_token,
        k.region == region,
        k.service == service,
{
    SigningKey {
        access_key: snapshot.access_key_id,
        secret_key: snapshot.secret_key,
        session_token: snapshot.session_token,
        region,
        service,
    }
}

/// What the credential hand-out produced by the time the catalog is resolved.
/// The caller performs the hand-out (see [`crate::credential`]) only for
/// locators where [`catalog_needs_credentials`] says so.
#[derive(Debug)]
pub enum CredentialLookup {
    /// No hand-out was performed; only allowed for kinds that need none.
    NotAttempted,
    /// The hand-out produced this snapshot.
    Retrieved(CredentialSnapshot),
    /// The hand-out failed.
    Failed(CredentialError),
}

/// The configured description of one catalog client: backend kind, base
/// path, optional signing key, optional basic-auth pair, and the storage
/// description passed through unchanged.
#[derive(Debug, PartialEq, Eq)]
pub struct CatalogClientConfig {
    pub kind: CatalogKind,
    pub base_path: String,
    pub signing: Option<SigningKey>,
    pub basic_auth: Option<(String, String)>,
    pub storage: StorageSelector,
}

/// The base path of a managed REST kind: a locator that is exactly the bare
/// host marker is completed to the region-qualified default host and path;
/// any other locator is used verbatim.
pub open spec fn spec_rest_base_path(k: CatalogKind, locator: Seq<char>, region: Seq<char>) -> Seq<
    char,
> {
    let marker = if k == CatalogKind::ManagedMetastore {
        "https://glue"@
    } else {
        "https://s3tables"@
    };
    if locator == marker {
        locator + "."@ + region + ".amazonaws.com/iceberg"@
    } else {
        locator
    }
}

/// Maps a locator plus the resolved region, the credential hand-out's result
/// and the ambient basic-auth pair to the catalog-client description, with
/// the storage description attached.
///
/// File-backed, ARN and generic-REST locators resolve as given, without
/// credentials; only the generic REST backend carries the basic-auth pair.
/// The managed REST kinds require a region — for completing a bare host and
/// for the signing key alike — and fail with `MissingRegion` when none is
/// resolvable, never proceeding with an empty region segment; with a region
/// they complete the base path, then derive the signing key for the fixed
/// metastore service, turning a failed hand-out into `CredentialFailure`.
pub fn resolve_catalog(
    locator: &str,
    region: Option<String>,
    credentials: CredentialLookup,
    basic_auth: Option<(String, String)>,
    storage: StorageSelector,
) -> (r: Result<CatalogClientConfig, ResolveError>)
    requires
        spec_needs_signing(spec_classify_locator(locator@)) ==> !(credentials
            is NotAttempted),
    ensures
        r is Ok <==> (!spec_needs_signing(spec_classify_locator(locator@)) || (region is Some
            && credentials is Retrieved)),
        spec_classify_locator(locator@) == CatalogKind::FileBacked || spec_classify_locator(
            locator@,
        ) == CatalogKind::ArnTableBucket ==> (r matches Ok(c) && c.kind == spec_classify_locator(
            locator@,
        ) && c.base_path@ == locator@ && c.signing is None && c.basic_auth is None && c.storage
            == storage),
        spec_classify_locator(locator@) == CatalogKind::GenericRest ==> (r matches Ok(c) && c.kind
            == CatalogKind::GenericRest && c.base_path@ == locator@ && c.signing is None
            && c.basic_auth == basic_auth && c.storage == storage),
        spec_needs_signing(spec_classify_locator(locator@)) && region is None ==> r == Err::<
            CatalogClientConfig,
            _,
        >(ResolveError::MissingRegion),
        spec_needs_signing(spec_classify_locator(locator@)) && region is Some ==> (credentials
            matches CredentialLookup::Failed(e) ==> r == Err::<CatalogClientConfig, _>(
            ResolveError::CredentialFailure(e),
        )),
        spec_needs_signing(spec_classify_locator(locator@)) && region is Some ==> (credentials
            matches CredentialLookup::Retrieved(s) ==> ({
            &&& r matches Ok(c)
            &&& c.kind == spec_classify_locator(locator@)
            &&& c.base_path@ == spec_rest_base_path(
                spec_classify_locator(locator@),
                locator@,
                region->0@,
            )
            &&& c.signing matches Some(key)
            &&& key.access_key == s.access_key_id
            &&& key.secret_key == s.secret_key
            &&& key.session_token == s.session_token
            &&& key.region == region->0
            &&& key.service@ == "glue"@
            &&& c.basic_auth is None
            &&& c.storage == storage
        })),
{
    let kind = classify_locator(locator);
    match kind {
        CatalogKind::FileBacked | CatalogKind::ArnTableBucket => Ok(
            CatalogClientConfig {
                kind,
                base_path: locator.to_owned(),
                signing: None,
                basic_auth: None,
                storage,
            },
        ),
        CatalogKind::GenericRest => Ok(
            CatalogClientConfig {
                kind,
                base_path: locator.to_owned(),
                signing: None,
                basic_auth,
                storage,
            },
        ),
        CatalogKind::ManagedMetastore | CatalogKind::ManagedTableBucketRest => {
            let region_str = match region {
                Some(r) => r,
                None => {
                    return Err(ResolveError::MissingRegion);
                },
            };
            let snapshot = match credentials {
                CredentialLookup::Retrieved(s) => s,
                CredentialLookup::Failed(e) => {
                    return Err(ResolveError::CredentialFailure(e));
                },
                CredentialLookup::NotAttempted => vstd::pervasive::unreached(),
            };
            let marker = match kind {
                CatalogKind::ManagedMetastore => "https://glue",
                _ => "https://s3tables",
            };
            let base_path = if str_eq(locator, marker) {
                let mut completed = locator.to_owned();
                completed.append(".");
                completed.append(region_str.as_str());
                completed.append(".amazonaws.com/iceberg");
                completed
            } else {
                locator.to_owned()
            };
            let key = derive_signing_key(snapshot, region_str, String::from_str("glue"));
            Ok(
                CatalogClientConfig {
                    kind,
                    base_path,
                    signing: Some(key),
                    basic_auth: None,
                    storage,
                },
            )
        },
    }
}

} // verus!
