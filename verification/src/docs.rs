//! Domain model of the documentation cache: identifiers, sources,
//! documents, chunks, search queries, configuration, ingestion reporting,
//! and the error taxonomy.

pub mod chunk;
pub mod clock;
pub mod config;
pub mod document;
pub mod error;
pub mod fetch;
pub mod ids;
pub mod ingest;
pub mod library;
pub mod search;
pub mod source;
