use frostbow::session::{extension_for_scheme, SessionAdapter};
use frostbow::storage::CloudProvider;

#[test]
fn scheme_table_selects_the_extension() {
    assert_eq!(extension_for_scheme("s3"), Some(CloudProvider::Aws));
    assert_eq!(extension_for_scheme("oss"), Some(CloudProvider::Aws));
    assert_eq!(extension_for_scheme("cos"), Some(CloudProvider::Aws));
    assert_eq!(extension_for_scheme("gs"), Some(CloudProvider::Gcp));
    assert_eq!(extension_for_scheme("gcs"), Some(CloudProvider::Gcp));
    assert_eq!(extension_for_scheme("http"), None);
    assert_eq!(extension_for_scheme(""), None);
}

#[test]
fn registration_activates_the_schemes_extension_only() {
    let mut adapter = SessionAdapter::new();
    adapter.register_table_options_extension_from_scheme("s3");
    assert!(adapter.aws_options_active);
    assert!(!adapter.gcp_options_active);

    adapter.register_table_options_extension_from_scheme("gcs");
    assert!(adapter.aws_options_active);
    assert!(adapter.gcp_options_active);
}

#[test]
fn repeated_registration_is_idempotent() {
    let mut once = SessionAdapter::new();
    once.register_table_options_extension_from_scheme("oss");

    let mut twice = SessionAdapter::new();
    twice.register_table_options_extension_from_scheme("oss");
    twice.register_table_options_extension_from_scheme("oss");

    assert_eq!(once, twice);
}

#[test]
fn unrelated_scheme_changes_nothing() {
    let mut adapter = SessionAdapter::new();
    adapter.register_table_options_extension_from_scheme("http");
    assert_eq!(adapter, SessionAdapter::new());
}
