//! Libraries: what a documentation source looks like to a reader.

use vstd::prelude::*;

use crate::docs::ids::SourceId;

verus! {

/// One indexed library and its cached versions.
#[derive(Debug, Clone)]
pub struct Library {
    pub source_id: SourceId,
    pub name: String,
    pub url: String,
    pub versions: Vec<Version>,
    pub document_count: usize,
    /// Milliseconds since the Unix epoch of the last completed sync.
    pub last_synced_at_ms: Option<u64>,
}

/// One cached version of a library.
#[derive(Debug, Clone)]
pub struct Version {
    pub label: String,
    pub git_ref: Option<String>,
    pub document_count: usize,
}

} // verus!
