use frostbow::catalog::{
    catalog_needs_credentials, classify_locator, derive_signing_key, resolve_catalog, CatalogKind,
    CredentialLookup,
};
use frostbow::credential::CredentialSnapshot;
use frostbow::errors::{CredentialError, ResolveError};
use frostbow::storage::StorageSelector;

fn snapshot() -> CredentialSnapshot {
    CredentialSnapshot {
        access_key_id: "AKID".to_string(),
        secret_key: "secret".to_string(),
        session_token: Some("token".to_string()),
        expiry: Some(1000),
    }
}

#[test]
fn classification_follows_rule_order() {
    assert_eq!(classify_locator("s3://bucket/metadata"), CatalogKind::FileBacked);
    assert_eq!(
        classify_locator("arn:aws:s3tables:us-east-1:123456789012:bucket/b"),
        CatalogKind::ArnTableBucket
    );
    assert_eq!(classify_locator("https://glue"), CatalogKind::ManagedMetastore);
    assert_eq!(
        classify_locator("https://glue.us-east-1.amazonaws.com/iceberg"),
        CatalogKind::ManagedMetastore
    );
    assert_eq!(classify_locator("https://s3tables"), CatalogKind::ManagedTableBucketRest);
    assert_eq!(
        classify_locator("https://s3tables.us-east-1.amazonaws.com/iceberg"),
        CatalogKind::ManagedTableBucketRest
    );
    assert_eq!(classify_locator("http://localhost:8181"), CatalogKind::GenericRest);
    assert_eq!(classify_locator(""), CatalogKind::GenericRest);
    // An ARN-shaped locator never falls through to the catch-all.
    assert_ne!(classify_locator("arn:"), CatalogKind::GenericRest);
}

#[test]
fn credentials_are_needed_exactly_for_managed_rest_kinds() {
    assert!(catalog_needs_credentials("https://glue"));
    assert!(catalog_needs_credentials("https://s3tables.example"));
    assert!(!catalog_needs_credentials("s3://bucket"));
    assert!(!catalog_needs_credentials("arn:aws:s3tables:eu-west-1:1:bucket/b"));
    assert!(!catalog_needs_credentials("http://localhost:8181"));
}

#[test]
fn bare_metastore_marker_is_completed_from_region() {
    let config = resolve_catalog(
        "https://glue",
        Some("us-east-1".to_string()),
        CredentialLookup::Retrieved(snapshot()),
        None,
        StorageSelector::InMemory,
    )
    .unwrap();
    assert_eq!(config.kind, CatalogKind::ManagedMetastore);
    assert_eq!(config.base_path, "https://glue.us-east-1.amazonaws.com/iceberg");
    let key = config.signing.unwrap();
    assert_eq!(key.access_key, "AKID");
    assert_eq!(key.secret_key, "secret");
    assert_eq!(key.session_token, Some("token".to_string()));
    assert_eq!(key.region, "us-east-1");
    assert_eq!(key.service, "glue");
    assert_eq!(config.basic_auth, None);
}

#[test]
fn non_bare_metastore_locator_is_used_verbatim() {
    let config = resolve_catalog(
        "https://glue.eu-west-1.amazonaws.com/iceberg",
        Some("eu-west-1".to_string()),
        CredentialLookup::Retrieved(snapshot()),
        None,
        StorageSelector::InMemory,
    )
    .unwrap();
    assert_eq!(config.base_path, "https://glue.eu-west-1.amazonaws.com/iceberg");
    assert_eq!(config.signing.unwrap().region, "eu-west-1");
}

#[test]
fn bare_table_bucket_marker_is_completed_from_region() {
    let config = resolve_catalog(
        "https://s3tables",
        Some("ap-south-1".to_string()),
        CredentialLookup::Retrieved(snapshot()),
        None,
        StorageSelector::InMemory,
    )
    .unwrap();
    assert_eq!(config.kind, CatalogKind::ManagedTableBucketRest);
    assert_eq!(config.base_path, "https://s3tables.ap-south-1.amazonaws.com/iceberg");
    assert_eq!(config.signing.unwrap().service, "glue");
}

#[test]
fn missing_region_fails_rather_than_completing_empty() {
    let err = resolve_catalog(
        "https://glue",
        None,
        CredentialLookup::Retrieved(snapshot()),
        None,
        StorageSelector::InMemory,
    )
    .unwrap_err();
    assert_eq!(err, ResolveError::MissingRegion);

    // Also for a non-bare locator: the signing key itself needs the region.
    let err = resolve_catalog(
        "https://s3tables.example.test/path",
        None,
        CredentialLookup::Retrieved(snapshot()),
        None,
        StorageSelector::InMemory,
    )
    .unwrap_err();
    assert_eq!(err, ResolveError::MissingRegion);
}

#[test]
fn failed_credential_handout_becomes_credential_failure() {
    let err = resolve_catalog(
        "https://glue",
        Some("us-east-1".to_string()),
        CredentialLookup::Failed(CredentialError::ProviderError("exchange refused".to_string())),
        None,
        StorageSelector::InMemory,
    )
    .unwrap_err();
    assert_eq!(
        err,
        ResolveError::CredentialFailure(CredentialError::ProviderError(
            "exchange refused".to_string()
        ))
    );
}

#[test]
fn file_backed_locator_resolves_as_given_without_credentials() {
    let config = resolve_catalog(
        "s3://bucket/metadata",
        None,
        CredentialLookup::NotAttempted,
        Some(("user".to_string(), "pass".to_string())),
        StorageSelector::LocalFilesystem,
    )
    .unwrap();
    assert_eq!(config.kind, CatalogKind::FileBacked);
    assert_eq!(config.base_path, "s3://bucket/metadata");
    assert_eq!(config.signing, None);
    assert_eq!(config.basic_auth, None);
    assert_eq!(config.storage, StorageSelector::LocalFilesystem);
}

#[test]
fn arn_locator_resolves_as_given_without_signing_key() {
    let config = resolve_catalog(
        "arn:aws:s3tables:us-east-1:123456789012:bucket/b",
        Some("us-east-1".to_string()),
        CredentialLookup::NotAttempted,
        None,
        StorageSelector::InMemory,
    )
    .unwrap();
    assert_eq!(config.kind, CatalogKind::ArnTableBucket);
    assert_eq!(config.base_path, "arn:aws:s3tables:us-east-1:123456789012:bucket/b");
    assert_eq!(config.signing, None);
}

#[test]
fn generic_rest_carries_basic_auth() {
    let config = resolve_catalog(
        "http://localhost:8181",
        None,
        CredentialLookup::NotAttempted,
        Some(("user".to_string(), "pass".to_string())),
        StorageSelector::InMemory,
    )
    .unwrap();
    assert_eq!(config.kind, CatalogKind::GenericRest);
    assert_eq!(config.base_path, "http://localhost:8181");
    assert_eq!(config.signing, None);
    assert_eq!(config.basic_auth, Some(("user".to_string(), "pass".to_string())));
}

#[test]
fn signing_key_carries_every_field_over() {
    let key = derive_signing_key(snapshot(), "us-east-1".to_string(), "glue".to_string());
    assert_eq!(key.access_key, "AKID");
    assert_eq!(key.secret_key, "secret");
    assert_eq!(key.session_token, Some("token".to_string()));
    assert_eq!(key.region, "us-east-1");
    assert_eq!(key.service, "glue");
}
