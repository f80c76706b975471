//! What a fetch of one document hands back.

use vstd::prelude::*;

verus! {

/// One fetched document: its path within the source, its content, and the
/// entity tag the transport reported, if any.
#[derive(Debug, Clone)]
pub struct FetchedDocument {
    pub path: String,
    pub content: String,
    pub etag: Option<String>,
}

/// Outcome of a freshness probe against a source.
#[derive(Debug, Clone)]
pub enum FreshnessCheck {
    /// The cached copy is current.
    Fresh,
    /// The document changed; a new entity tag may accompany the answer.
    Stale { new_etag: Option<String> },
    /// The source cannot say.
    Unknown,
}

} // verus!
