//! Error taxonomy of the access layer. Every failure path returns one of
//! these typed errors; nothing is retried internally and nothing is replaced
//! by a default value.

use vstd::prelude::*;

verus! {

/// Failure of a credential hand-out.
#[derive(Debug, PartialEq, Eq)]
pub enum CredentialError {
    /// No underlying credential provider is configured.
    ProviderUnavailable,
    /// The underlying credential exchange ran and failed; the cause is kept
    /// as its message. The cache is left unmodified so a later retry may
    /// succeed.
    ProviderError(String),
}

/// Failure of a storage or catalog resolution.
#[derive(Debug, PartialEq, Eq)]
pub enum ResolveError {
    /// The storage selector names no supported backend; carries the selector.
    UnsupportedStorage(String),
    /// No classification rule matched the locator and no fallback applied.
    /// The generic-REST fallback of [`crate::catalog::resolve_catalog`]
    /// accepts every remaining locator, so that function never returns this
    /// variant; it is part of the taxonomy for callers that reject locators
    /// of their own.
    InvalidLocator,
    /// A rule required a region and none was resolvable.
    MissingRegion,
    /// Deriving a signing key failed because the credential hand-out failed.
    CredentialFailure(CredentialError),
}

} // verus!
