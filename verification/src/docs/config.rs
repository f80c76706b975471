//! Configuration defaults for ingestion and freshness checking.

use vstd::prelude::*;

verus! {

/// How documents are fetched and indexed.
#[derive(Debug, Clone)]
pub struct IngestConfig {
    /// Number of concurrent fetches.
    pub concurrency: usize,
    /// File extensions that are ingested.
    pub extensions: Vec<String>,
}

impl Default for IngestConfig {
    /// Five concurrent fetches over the common documentation formats.
    fn default() -> (r: Self)
        ensures
            r.concurrency == 5,
            r.extensions@.len() == 4,
            r.extensions@[0]@ == "md"@,
            r.extensions@[1]@ == "mdx"@,
            r.extensions@[2]@ == "txt"@,
            r.extensions@[3]@ == "rst"@,
    {
        let mut extensions: Vec<String> = Vec::new();
        extensions.push("md".to_owned());
        extensions.push("mdx".to_owned());
        extensions.push("txt".to_owned());
        extensions.push("rst".to_owned());
        IngestConfig { concurrency: 5, extensions }
    }
}

/// When a cached document counts as stale.
#[derive(Debug, Clone, Copy, PartialEq, Eq, Structural)]
pub struct FreshnessConfig {
    /// Age in days after which a document is re-fetched.
    pub stale_days: u32,
    /// Whether entity tags are used to skip unchanged fetches.
    pub use_etag: bool,
}

impl Default for FreshnessConfig {
    /// Stale after a week; entity tags on.
    fn default() -> (r: Self)
        ensures
            r == (FreshnessConfig { stale_days: 7, use_etag: true }),
    {
        FreshnessConfig { stale_days: 7, use_etag: true }
    }
}

} // verus!
