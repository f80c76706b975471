//! Opaque identifiers for sources, documents and chunks: a short prefix
//! plus six hex digits drawn from a hashed random seed.

use vstd::prelude::*;
use vstd::string::StringExecFns;

use crate::hashing::{blake3_hash, hex_encode, is_hex_digit, lemma_hex_of_shape};

verus! {

/// Relies on `uuid::Uuid::new_v4`: sixteen random bytes. The value is
/// random, so nothing is promised about it.
#[verifier::external_body]
fn uuid_v4_bytes() -> (r: Vec<u8>)
    ensures
        r@.len() == 16,
{
    uuid::Uuid::new_v4().as_bytes().to_vec()
}

/// An identifier in the shape this module mints: the given prefix, a dash,
/// and six lowercase hex digits.
pub open spec fn spec_id_shape(id: Seq<char>, prefix: Seq<char>) -> bool {
    &&& id.len() == prefix.len() + 7
    &&& id.subrange(0, prefix.len() as int) == prefix
    &&& id[prefix.len() as int] == '-'
    &&& forall|i: int| prefix.len() + 1 <= i < id.len() ==> is_hex_digit(#[trigger] id[i])
}

/// Mints a fresh identifier: hashes sixteen random bytes and keeps six hex
/// digits of the digest behind the prefix.
fn generate_id(prefix: &str) -> (r: String)
    ensures
        spec_id_shape(r@, prefix@),
{
    let seed = uuid_v4_bytes();
    let digest = blake3_hash(seed.as_slice());
    let mut head: Vec<u8> = Vec::new();
    head.push(digest[0]);
    head.push(digest[1]);
    head.push(digest[2]);
    let hex = hex_encode(head.as_slice());
    proof {
        lemma_hex_of_shape(head@);
    }
    let mut r = prefix.to_owned();
    r.append("-");
    r.append(hex.as_str());
    proof {
        reveal_strlit("-");
        let ghost hseq = crate::hashing::hex_of(head@);
        assert(r@ =~= prefix@ + "-"@ + hseq);
        assert(r@.len() == prefix@.len() + 7);
        assert(r@.subrange(0, prefix@.len() as int) =~= prefix@);
        assert(r@[prefix@.len() as int] == '-');
        assert forall|i: int| prefix@.len() + 1 <= i < r@.len() implies is_hex_digit(
            #[trigger] r@[i],
        ) by {
            assert(r@[i] == hseq[i - prefix@.len() - 1]);
        }
    }
    r
}

/// Identifier of a documentation source.
#[derive(PartialEq, Eq, Hash, Debug, Clone)]
pub struct SourceId(String);

/// Identifier of a cached document.
#[derive(PartialEq, Eq, Hash, Debug, Clone)]
pub struct DocId(String);

/// Identifier of one chunk of a document.
#[derive(PartialEq, Eq, Hash, Debug, Clone)]
pub struct ChunkId(String);

impl View for SourceId {
    type V = Seq<char>;

    closed spec fn view(&self) -> Seq<char> {
        self.0@
    }
}

impl View for DocId {
    type V = Seq<char>;

    closed spec fn view(&self) -> Seq<char> {
        self.0@
    }
}

impl View for ChunkId {
    type V = Seq<char>;

    closed spec fn view(&self) -> Seq<char> {
        self.0@
    }
}

impl SourceId {
    /// Mints a fresh source id, prefixed `src-`.
    pub fn generate() -> (r: Self)
        ensures
            spec_id_shape(r@, "src"@),
    {
        SourceId(generate_id("src"))
    }

    /// Wraps an existing identifier string.
    pub fn from_string(s: String) -> (r: Self)
        ensures
            r@ == s@,
    {
        SourceId(s)
    }

    /// The identifier as text.
    pub fn as_str(&self) -> (r: &str)
        ensures
            r@ == self@,
    {
        self.0.as_str()
    }
}

impl DocId {
    /// Mints a fresh document id, prefixed `doc-`.
    pub fn generate() -> (r: Self)
        ensures
            spec_id_shape(r@, "doc"@),
    {
        DocId(generate_id("doc"))
    }

    /// Wraps an existing identifier string.
    pub fn from_string(s: String) -> (r: Self)
        ensures
            r@ == s@,
    {
        DocId(s)
    }

    /// The identifier as text.
    pub fn as_str(&self) -> (r: &str)
        ensures
            r@ == self@,
    {
        self.0.as_str()
    }
}

impl ChunkId {
    /// Mints a fresh chunk id, prefixed `chk-`.
    pub fn generate() -> (r: Self)
        ensures
            spec_id_shape(r@, "chk"@),
    {
        ChunkId(generate_id("chk"))
    }

    /// Wraps an existing identifier string.
    pub fn from_string(s: String) -> (r: Self)
        ensures
            r@ == s@,
    {
        ChunkId(s)
    }

    /// The identifier as text.
    pub fn as_str(&self) -> (r: &str)
        ensures
            r@ == self@,
    {
        self.0.as_str()
    }
}

} // verus!
