//! Chunks: the indexed fragments of a cached document.

use vstd::prelude::*;

use crate::docs::ids::{spec_id_shape, ChunkId, DocId};

verus! {

/// One indexed fragment of a document.
#[derive(Debug, Clone)]
pub struct Chunk {
    pub id: ChunkId,
    pub doc_id: DocId,
    pub text: String,
    pub position: ChunkPosition,
    pub metadata: ChunkMetadata,
}

/// Where a chunk sits inside its document.
#[derive(Debug, Clone, Copy, PartialEq, Eq, Structural)]
pub struct ChunkPosition {
    pub index: usize,
    pub start_line: usize,
    pub end_line: usize,
    pub start_byte: usize,
    pub end_byte: usize,
}

impl Default for ChunkPosition {
    /// The zero position.
    fn default() -> (r: Self)
        ensures
            r == (ChunkPosition { index: 0, start_line: 0, end_line: 0, start_byte: 0, end_byte: 0 }),
    {
        ChunkPosition { index: 0, start_line: 0, end_line: 0, start_byte: 0, end_byte: 0 }
    }
}

/// Optional annotations of a chunk.
#[derive(Debug, Clone)]
pub struct ChunkMetadata {
    pub section_title: Option<String>,
    pub language: Option<String>,
    pub chunk_type: ChunkType,
}

impl Default for ChunkMetadata {
    /// No annotations; prose by default.
    fn default() -> (r: Self)
        ensures
            r.section_title is None,
            r.language is None,
            r.chunk_type == ChunkType::Prose,
    {
        ChunkMetadata { section_title: None, language: None, chunk_type: ChunkType::Prose }
    }
}

/// The syntactic kind of a chunk.
#[derive(Debug, Clone, Copy, PartialEq, Eq, Structural)]
pub enum ChunkType {
    Prose,
    CodeBlock,
    Heading,
    List,
}

impl Default for ChunkType {
    fn default() -> (r: Self)
        ensures
            r == ChunkType::Prose,
    {
        ChunkType::Prose
    }
}

impl Chunk {
    /// A chunk of the given document with a freshly minted id and default
    /// metadata.
    pub fn new(doc_id: DocId, text: String, position: ChunkPosition) -> (r: Self)
        ensures
            spec_id_shape(r.id@, "chk"@),
            r.doc_id == doc_id,
            r.text@ == text@,
            r.position == position,
            r.metadata.section_title is None,
            r.metadata.language is None,
            r.metadata.chunk_type == ChunkType::Prose,
    {
        Chunk { id: ChunkId::generate(), doc_id, text, position, metadata: ChunkMetadata::default() }
    }

    /// The same chunk with its metadata replaced.
    #[must_use]
    pub fn with_metadata(self, metadata: ChunkMetadata) -> (r: Self)
        ensures
            r.id == self.id,
            r.doc_id == self.doc_id,
            r.text == self.text,
            r.position == self.position,
            r.metadata == metadata,
    {
        Chunk { metadata, ..self }
    }
}

} // verus!
