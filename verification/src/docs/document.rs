//! Cached documents and their metadata.

use vstd::prelude::*;
use vstd::string::{StrSliceExecFns, StringSliceAdditionalSpecFns};
use vstd::utf8::encode_utf8;

use crate::docs::clock::now_unix_ms;
use crate::docs::ids::{spec_id_shape, DocId, SourceId};
use crate::hashing::{content_hash, spec_content_hash};

verus! {

/// Number of `\n` characters in `s`.
pub open spec fn count_newlines(s: Seq<char>) -> nat
    decreases s.len(),
{
    if s.len() == 0 {
        0
    } else {
        count_newlines(s.drop_last()) + (if s.last() == '\n' {
            1nat
        } else {
            0nat
        })
    }
}

/// There are at most as many newlines as characters.
proof fn lemma_count_newlines_le(s: Seq<char>)
    ensures
        count_newlines(s) <= s.len(),
    decreases s.len(),
{
    if s.len() > 0 {
        lemma_count_newlines_le(s.drop_last());
    }
}

/// Number of lines of a text: each `\n` ends a line, and a nonempty final
/// fragment counts as one more. The empty text has no lines.
pub open spec fn spec_line_count(s: Seq<char>) -> nat {
    if s.len() == 0 {
        0
    } else {
        count_newlines(s) + (if s.last() == '\n' {
            0nat
        } else {
            1nat
        })
    }
}

/// Counts the lines of a text.
pub fn line_count(s: &str) -> (r: usize)
    ensures
        r == spec_line_count(s@),
{
    let len = s.unicode_len();
    if len == 0 {
        return 0;
    }
    let mut count: usize = 0;
    let mut i: usize = 0;
    while i < len
        invariant
            i <= len,
            len == s@.len(),
            count == count_newlines(s@.take(i as int)),
            count <= i,
        decreases len - i,
    {
        proof {
            assert(s@.take(i + 1).drop_last() =~= s@.take(i as int));
        }
        if s.get_char(i) == '\n' {
            count += 1;
        }
        i += 1;
    }
    proof {
        assert(s@.take(len as int) =~= s@);
        if s@.last() != '\n' {
            assert(s@.drop_last() =~= s@.take(len - 1));
            lemma_count_newlines_le(s@.drop_last());
        }
    }
    if s.get_char(len - 1) == '\n' {
        count
    } else {
        count + 1
    }
}

/// Descriptive metadata of a cached document.
#[derive(Debug, Clone)]
pub struct DocumentMetadata {
    pub language: Option<String>,
    /// Content size in bytes.
    pub size_bytes: usize,
    /// Number of lines of the content.
    pub line_count: usize,
}

impl Default for DocumentMetadata {
    /// An empty document's metadata.
    fn default() -> (r: Self)
        ensures
            r.language is None,
            r.size_bytes == 0,
            r.line_count == 0,
    {
        DocumentMetadata { language: None, size_bytes: 0, line_count: 0 }
    }
}

/// One cached document.
#[derive(Debug, Clone)]
pub struct Document {
    pub id: DocId,
    pub source_id: SourceId,
    /// Path of the document within its source.
    pub path: String,
    pub title: Option<String>,
    pub content: String,
    /// Blake3 digest of the content, in hex.
    pub content_hash: String,
    pub version: Option<String>,
    /// Milliseconds since the Unix epoch when the content was fetched.
    pub fetched_at_ms: u64,
    /// Milliseconds since the Unix epoch of the last read.
    pub last_accessed_at_ms: u64,
    pub metadata: DocumentMetadata,
}

impl Document {
    /// A freshly fetched document: new id, fingerprinted and measured
    /// content, no title or version yet, both timestamps at the wall clock's
    /// current reading.
    pub fn new(source_id: SourceId, path: String, content: String) -> (r: Self)
        ensures
            spec_id_shape(r.id@, "doc"@),
            r.source_id == source_id,
            r.path@ == path@,
            r.title is None,
            r.content@ == content@,
            r.content_hash@ == spec_content_hash(encode_utf8(content@)),
            r.version is None,
            r.fetched_at_ms == r.last_accessed_at_ms,
            r.metadata.language is None,
            r.metadata.size_bytes == encode_utf8(content@).len() as usize,
            r.metadata.line_count == spec_line_count(content@),
    {
        let content_str = content.as_str();
        let content_hash = content_hash(content_str);
        proof {
            assert(content_str.spec_bytes() == encode_utf8(content@));
        }
        let metadata = DocumentMetadata {
            language: None,
            size_bytes: content_str.len(),
            line_count: line_count(content_str),
        };
        let now = now_unix_ms();
        Document {
            id: DocId::generate(),
            source_id,
            path,
            title: None,
            content,
            content_hash,
            version: None,
            fetched_at_ms: now,
            last_accessed_at_ms: now,
            metadata,
        }
    }

    /// The same document with a title.
    #[must_use]
    pub fn with_title(self, title: String) -> (r: Self)
        ensures
            r.title matches Some(t) && t@ == title@,
            r.id == self.id,
            r.source_id == self.source_id,
            r.path == self.path,
            r.content == self.content,
            r.content_hash == self.content_hash,
            r.version == self.version,
            r.fetched_at_ms == self.fetched_at_ms,
            r.last_accessed_at_ms == self.last_accessed_at_ms,
            r.metadata == self.metadata,
    {
        Document { title: Some(title), ..self }
    }

    /// The same document with a version label.
    #[must_use]
    pub fn with_version(self, version: String) -> (r: Self)
        ensures
            r.version matches Some(v) && v@ == version@,
            r.id == self.id,
            r.source_id == self.source_id,
            r.path == self.path,
            r.title == self.title,
            r.content == self.content,
            r.content_hash == self.content_hash,
            r.fetched_at_ms == self.fetched_at_ms,
            r.last_accessed_at_ms == self.last_accessed_at_ms,
            r.metadata == self.metadata,
    {
        Document { version: Some(version), ..self }
    }
}

} // verus!
