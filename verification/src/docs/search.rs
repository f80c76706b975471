//! Search queries against the documentation cache.

use vstd::prelude::*;
use vstd::string::StringExecFns;

use crate::text::{ascii_lower, ascii_lower_of, str_eq};

verus! {

/// How results are ranked.
#[derive(Debug, Clone, Copy, PartialEq, Eq, Structural)]
pub enum SearchMode {
    Hybrid,
    Word,
    Vector,
}

impl Default for SearchMode {
    fn default() -> (r: Self)
        ensures
            r == SearchMode::Hybrid,
    {
        SearchMode::Hybrid
    }
}

impl SearchMode {
    /// Parses a mode name, ASCII case-insensitively: `hybrid`; `word`,
    /// `bm25` or `keyword`; `vector`, `semantic` or `embedding`. Anything
    /// else is rejected with a message naming the input.
    pub fn parse(s: &str) -> (r: Result<SearchMode, String>)
        ensures
            ({
                let l = ascii_lower_of(s@);
                match r {
                    Ok(SearchMode::Hybrid) => l == "hybrid"@,
                    Ok(SearchMode::Word) => l == "word"@ || l == "bm25"@ || l == "keyword"@,
                    Ok(SearchMode::Vector) => l == "vector"@ || l == "semantic"@ || l
                        == "embedding"@,
                    Err(m) => {
                        &&& m@ == "Unknown search mode: "@ + s@
                        &&& l != "hybrid"@
                        &&& l != "word"@ && l != "bm25"@ && l != "keyword"@
                        &&& l != "vector"@ && l != "semantic"@ && l != "embedding"@
                    },
                }
            }),
    {
        let low = ascii_lower(s);
        let l = low.as_str();
        if str_eq(l, "hybrid") {
            Ok(SearchMode::Hybrid)
        } else if str_eq(l, "word") || str_eq(l, "bm25") || str_eq(l, "keyword") {
            Ok(SearchMode::Word)
        } else if str_eq(l, "vector") || str_eq(l, "semantic") || str_eq(l, "embedding") {
            Ok(SearchMode::Vector)
        } else {
            let mut m = "Unknown search mode: ".to_owned();
            m.append(s);
            Err(m)
        }
    }
}

impl core::str::FromStr for SearchMode {
    type Err = String;

    fn from_str(s: &str) -> Result<SearchMode, String> {
        SearchMode::parse(s)
    }
}

/// A search request: the query text and its filters.
#[derive(Debug, Clone)]
pub struct SearchQuery {
    pub query: String,
    pub library: Option<String>,
    pub version: Option<String>,
    pub mode: SearchMode,
    pub limit: usize,
}

impl SearchQuery {
    /// A query with no filters, hybrid ranking, and a limit of ten results.
    pub fn new(query: String) -> (r: Self)
        ensures
            r.query@ == query@,
            r.library is None,
            r.version is None,
            r.mode == SearchMode::Hybrid,
            r.limit == 10,
    {
        SearchQuery {
            query,
            library: None,
            version: None,
            mode: SearchMode::default(),
            limit: 10,
        }
    }

    /// The same query restricted to one library.
    #[must_use]
    pub fn with_library(self, library: String) -> (r: Self)
        ensures
            r.library matches Some(l) && l@ == library@,
            r.query == self.query,
            r.version == self.version,
            r.mode == self.mode,
            r.limit == self.limit,
    {
        SearchQuery { library: Some(library), ..self }
    }

    /// The same query restricted to one version label.
    #[must_use]
    pub fn with_version(self, version: String) -> (r: Self)
        ensures
            r.version matches Some(v) && v@ == version@,
            r.query == self.query,
            r.library == self.library,
            r.mode == self.mode,
            r.limit == self.limit,
    {
        SearchQuery { version: Some(version), ..self }
    }

    /// The same query under another ranking mode.
    #[must_use]
    pub fn with_mode(self, mode: SearchMode) -> (r: Self)
        ensures
            r.mode == mode,
            r.query == self.query,
            r.library == self.library,
            r.version == self.version,
            r.limit == self.limit,
    {
        SearchQuery { mode, ..self }
    }

    /// The same query with another result limit.
    #[must_use]
    pub fn with_limit(self, limit: usize) -> (r: Self)
        ensures
            r.limit == limit,
            r.query == self.query,
            r.library == self.library,
            r.version == self.version,
            r.mode == self.mode,
    {
        SearchQuery { limit, ..self }
    }
}

} // verus!
