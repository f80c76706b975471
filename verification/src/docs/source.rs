//! Documentation sources: where a library's documents come from.

use vstd::prelude::*;
use vstd::string::StringExecFns;

use crate::docs::clock::now_unix_ms;
use crate::docs::error::HelixDocsError;
use crate::docs::ids::{spec_id_shape, SourceId};
use crate::text::{spec_starts_with, starts_with_str};

verus! {

/// The kinds of source the cache can ingest.
#[derive(Debug, Clone, Copy, PartialEq, Eq, Structural)]
pub enum SourceType {
    GitHub,
    Website,
}

/// Per-source ingestion settings.
#[derive(Debug, Clone)]
pub struct SourceConfig {
    pub docs_path: Option<String>,
    pub git_ref: Option<String>,
    pub version: Option<String>,
    pub etag: Option<String>,
    pub crawl_depth: Option<u32>,
    pub max_pages: Option<u32>,
    pub allow_paths: Vec<String>,
    pub deny_paths: Vec<String>,
}

impl Default for SourceConfig {
    /// Everything unset.
    fn default() -> (r: Self)
        ensures
            r.docs_path is None,
            r.git_ref is None,
            r.version is None,
            r.etag is None,
            r.crawl_depth is None,
            r.max_pages is None,
            r.allow_paths@.len() == 0,
            r.deny_paths@.len() == 0,
    {
        SourceConfig {
            docs_path: None,
            git_ref: None,
            version: None,
            etag: None,
            crawl_depth: None,
            max_pages: None,
            allow_paths: Vec::new(),
            deny_paths: Vec::new(),
        }
    }
}

/// Where a source stands in its sync lifecycle.
#[derive(Debug, Clone)]
pub enum SyncStatus {
    Pending,
    Syncing,
    Synced,
    Error(String),
}

impl Default for SyncStatus {
    fn default() -> (r: Self)
        ensures
            r is Pending,
    {
        SyncStatus::Pending
    }
}

/// `s` after removing every repetition of the prefix `p` from its start.
pub open spec fn spec_strip_all_prefix(s: Seq<char>, p: Seq<char>) -> Seq<char>
    decreases s.len(),
{
    if p.len() > 0 && spec_starts_with(s, p) {
        spec_strip_all_prefix(s.skip(p.len() as int), p)
    } else {
        s
    }
}

/// `s` without trailing slashes.
pub open spec fn spec_trim_end_slashes(s: Seq<char>) -> Seq<char>
    decreases s.len(),
{
    if s.len() > 0 && s.last() == '/' {
        spec_trim_end_slashes(s.drop_last())
    } else {
        s
    }
}

/// Trimming trailing slashes keeps everything up to the last non-slash.
proof fn lemma_trim_end_slashes_at(s: Seq<char>, b: int)
    requires
        0 <= b <= s.len(),
        forall|i: int| b <= i < s.len() ==> #[trigger] s[i] == '/',
        b == 0 || s[b - 1] != '/',
    ensures
        spec_trim_end_slashes(s) == s.take(b),
    decreases s.len() - b,
{
    if b == s.len() {
        assert(s.take(b) =~= s);
    } else {
        lemma_trim_end_slashes_at(s.drop_last(), b);
        assert(s.drop_last().take(b) =~= s.take(b));
    }
}

/// Removes every repetition of `p` from the start of `s`.
fn strip_all_prefix<'a>(s: &'a str, p: &str) -> (r: &'a str)
    requires
        p@.len() > 0,
    ensures
        r@ == spec_strip_all_prefix(s@, p@),
{
    let mut cur: &str = s;
    loop
        invariant
            p@.len() > 0,
            spec_strip_all_prefix(s@, p@) == spec_strip_all_prefix(cur@, p@),
        ensures
            cur@ == spec_strip_all_prefix(s@, p@),
        decreases cur@.len(),
    {
        if !starts_with_str(cur, p) {
            break;
        }
        let plen = p.unicode_len();
        let clen = cur.unicode_len();
        cur = cur.substring_char(plen, clen);
    }
    cur
}

/// Removes trailing slashes.
fn trim_end_slashes<'a>(s: &'a str) -> (r: &'a str)
    ensures
        r@ == spec_trim_end_slashes(s@),
{
    let len = s.unicode_len();
    let mut b: usize = len;
    loop
        invariant
            b <= len,
            len == s@.len(),
            forall|i: int| b <= i < len ==> #[trigger] s@[i] == '/',
        ensures
            b <= len,
            forall|i: int| b <= i < len ==> #[trigger] s@[i] == '/',
            b == 0 || s@[b - 1] != '/',
        decreases b,
    {
        if b == 0 {
            break;
        }
        if s.get_char(b - 1) != '/' {
            break;
        }
        b -= 1;
    }
    proof {
        lemma_trim_end_slashes_at(s@, b as int);
        assert(s@.take(b as int) =~= s@.subrange(0, b as int));
    }
    s.substring_char(0, b)
}

/// The library name a GitHub source displays as: its URL with the GitHub
/// prefix and trailing slashes removed.
pub open spec fn spec_github_library_name(url: Seq<char>) -> Seq<char> {
    spec_trim_end_slashes(spec_strip_all_prefix(url, "https://github.com/"@))
}

/// One registered documentation source.
#[derive(Debug, Clone)]
pub struct Source {
    pub id: SourceId,
    pub url: String,
    pub kind: SourceType,
    pub config: SourceConfig,
    /// Milliseconds since the Unix epoch when the source was registered.
    pub created_at_ms: u64,
    pub last_synced_at_ms: Option<u64>,
    pub sync_status: SyncStatus,
}

impl Source {
    /// Registers a GitHub source: fresh id, pending sync, never synced.
    /// Its creation instant comes from the wall clock.
    pub fn new_github(url: String, config: SourceConfig) -> (r: Self)
        ensures
            spec_id_shape(r.id@, "src"@),
            r.url@ == url@,
            r.kind == SourceType::GitHub,
            r.config == config,
            r.last_synced_at_ms is None,
            r.sync_status is Pending,
    {
        Source {
            id: SourceId::generate(),
            url,
            kind: SourceType::GitHub,
            config,
            created_at_ms: now_unix_ms(),
            last_synced_at_ms: None,
            sync_status: SyncStatus::Pending,
        }
    }

    /// The name this source displays as: for GitHub, the URL without the
    /// GitHub prefix and trailing slashes; otherwise the URL itself.
    pub fn library_name(&self) -> (r: String)
        ensures
            r@ == (if self.kind == SourceType::GitHub {
                spec_github_library_name(self.url@)
            } else {
                self.url@
            }),
    {
        if matches!(self.kind, SourceType::GitHub) {
            proof {
                reveal_strlit("https://github.com/");
            }
            let stripped = strip_all_prefix(self.url.as_str(), "https://github.com/");
            trim_end_slashes(stripped).to_owned()
        } else {
            self.url.clone()
        }
    }
}

/// Classifies a source URL: GitHub URLs become GitHub sources, other HTTP
/// URLs website sources, anything else is rejected naming the URL.
pub fn detect_source_type(url: &str) -> (r: Result<SourceType, HelixDocsError>)
    ensures
        match r {
            Ok(SourceType::GitHub) => spec_starts_with(url@, "https://github.com/"@)
                || spec_starts_with(url@, "http://github.com/"@),
            Ok(SourceType::Website) => {
                &&& !spec_starts_with(url@, "https://github.com/"@)
                &&& !spec_starts_with(url@, "http://github.com/"@)
                &&& (spec_starts_with(url@, "https://"@) || spec_starts_with(url@, "http://"@))
            },
            Err(e) => {
                &&& (e matches HelixDocsError::InvalidSourceUrl(s) && s@ == url@)
                &&& !spec_starts_with(url@, "https://"@)
                &&& !spec_starts_with(url@, "http://"@)
                &&& !spec_starts_with(url@, "https://github.com/"@)
                &&& !spec_starts_with(url@, "http://github.com/"@)
            },
        },
{
    if starts_with_str(url, "https://github.com/") || starts_with_str(url, "http://github.com/") {
        Ok(SourceType::GitHub)
    } else if starts_with_str(url, "https://") || starts_with_str(url, "http://") {
        Ok(SourceType::Website)
    } else {
        proof {
            reveal_strlit("https://github.com/");
            reveal_strlit("http://github.com/");
            reveal_strlit("https://");
            reveal_strlit("http://");
        }
        Err(HelixDocsError::InvalidSourceUrl(url.to_owned()))
    }
}

} // verus!
