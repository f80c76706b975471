//! Core library for the helix tool family: the sync-coordination daemon
//! (wire protocol, deduplicated job queue, command dispatch), the
//! documentation-cache domain model, decision-record parsing, and the
//! family-tree demo data model.

pub mod adr;
pub mod daemon;
pub mod docs;
pub mod hashing;
pub mod storage;
pub mod text;
pub mod tree;
