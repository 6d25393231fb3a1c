//! Session adapter: the decisions the session wrapper makes when the query
//! engine asks it to register configuration extensions for a URL scheme.
//!
//! The adapter wraps the engine's session by composition; object-store
//! registration and plan execution delegate to the engine unchanged and live
//! with it in the surrounding binary. What is decided here is table-driven:
//! which table-options extension a scheme requires, and the record of which
//! extensions are active. The engine keys an extension by its kind and
//! overwrites on re-registration, so one boolean per kind records exactly
//! whether an instance is active.

use vstd::prelude::*;

use crate::storage::CloudProvider;
use crate::text::str_eq;

verus! {

/// The table-options extension a URL scheme requires: the cloud-store
/// extension for `s3`, `oss` and `cos`, the second provider's for `gs` and
/// `gcs`, and none for every other scheme.
pub open spec fn spec_extension_for_scheme(scheme: Seq<char>) -> Option<CloudProvider> {
    if scheme == "s3"@ || scheme == "oss"@ || scheme == "cos"@ {
        Some(CloudProvider::Aws)
    } else if scheme == "gs"@ || scheme == "gcs"@ {
        Some(CloudProvider::Gcp)
    } else {
        None
    }
}

/// Table-driven classification of a URL scheme.
pub fn extension_for_scheme(scheme: &str) -> (r: Option<CloudProvider>)
    ensures
        r == spec_extension_for_scheme(scheme@),
{
    if str_eq(scheme, "s3") || str_eq(scheme, "oss") || str_eq(scheme, "cos") {
        Some(CloudProvider::Aws)
    } else if str_eq(scheme, "gs") || str_eq(scheme, "gcs") {
        Some(CloudProvider::Gcp)
    } else {
        None
    }
}

/// Records which table-options extensions the wrapped session holds. Created
/// with none active; registration is the only operation that changes it.
#[derive(Clone, Copy, Debug, PartialEq, Eq, Structural)]
pub struct SessionAdapter {
    pub aws_options_active: bool,
    pub gcp_options_active: bool,
}

/// The adapter after registering the extension for `scheme`: the scheme's
/// extension kind becomes active, everything else is untouched; a scheme
/// requiring no extension changes nothing.
pub open spec fn spec_register_scheme(a: SessionAdapter, scheme: Seq<char>) -> SessionAdapter {
    match spec_extension_for_scheme(scheme) {
        Some(CloudProvider::Aws) => SessionAdapter { aws_options_active: true, ..a },
        Some(CloudProvider::Gcp) => SessionAdapter { gcp_options_active: true, ..a },
        None => a,
    }
}

impl SessionAdapter {
    /// A fresh adapter with no extension active.
    pub fn new() -> (a: SessionAdapter)
        ensures
            a == (SessionAdapter { aws_options_active: false, gcp_options_active: false }),
    {
        SessionAdapter { aws_options_active: false, gcp_options_active: false }
    }

    /// Registers the table-options extension the scheme requires, if any.
    pub fn register_table_options_extension_from_scheme(&mut self, scheme: &str)
        ensures
            *final(self) == spec_register_scheme(*old(self), scheme@),
    {
        match extension_for_scheme(scheme) {
            Some(CloudProvider::Aws) => {
                self.aws_options_active = true;
            },
            Some(CloudProvider::Gcp) => {
                self.gcp_options_active = true;
            },
            None => {},
        }
    }
}

/// Registering a scheme is idempotent: a repeated registration for the same
/// scheme leaves exactly the adapter that one registration leaves, so at most
/// one extension instance is ever active per kind.
pub proof fn lemma_scheme_registration_idempotent(a: SessionAdapter, scheme: Seq<char>)
    ensures
        spec_register_scheme(spec_register_scheme(a, scheme), scheme) == spec_register_scheme(
            a,
            scheme,
        ),
{
}

} // verus!
