//! Credential-caching access layer and catalog-backend resolver for an
//! Iceberg-backed query session.
//!
//! The library decides which catalog backend a locator string selects, how a
//! bare managed-metastore host is completed from the ambient region, which
//! object-storage backend a selector names, when a cached credential snapshot
//! may be handed out and when it must be refreshed, and which table-options
//! extension a URL scheme requires. The network clients themselves (the
//! credential exchange, the object stores, the catalog servers, the query
//! engine) are collaborators that the surrounding binary drives; this crate
//! holds the decision logic and its proofs.

use vstd::prelude::*;

pub mod catalog;
pub mod credential;
pub mod errors;
pub mod session;
pub mod storage;
pub mod text;

verus! {

/// Command-line arguments of the front end, as resolved plain values.
///
/// The binary parses the process arguments and hands this crate the resolved
/// fields; nothing in the library reads the environment itself.
#[derive(Debug)]
pub struct Args {
    /// Locator of the catalog backend (URI, ARN, or path).
    pub catalog_url: Option<String>,
    /// Storage backend selector; absent means an in-memory store.
    pub storage: Option<String>,
    /// Commands to execute instead of starting the interactive front end.
    pub command: Vec<String>,
    /// Files with commands to execute.
    pub file: Vec<String>,
}

} // verus!
