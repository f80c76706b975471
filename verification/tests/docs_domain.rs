//! Tests of the documentation-cache domain model.

use std::str::FromStr;

use helix_core::docs::chunk::{Chunk, ChunkMetadata, ChunkPosition, ChunkType};
use helix_core::docs::config::{FreshnessConfig, IngestConfig};
use helix_core::docs::document::{line_count, Document};
use helix_core::docs::error::HelixDocsError;
use helix_core::docs::ids::{ChunkId, DocId, SourceId};
use helix_core::docs::ingest::IngestionResult;
use helix_core::docs::search::{SearchMode, SearchQuery};
use helix_core::docs::source::{detect_source_type, Source, SourceConfig, SourceType, SyncStatus};

fn id_shape_ok(id: &str, prefix: &str) -> bool {
    id.len() == prefix.len() + 7
        && id.starts_with(prefix)
        && id.as_bytes()[prefix.len()] == b'-'
        && id[prefix.len() + 1..]
            .chars()
            .all(|c| c.is_ascii_hexdigit() && !c.is_ascii_uppercase())
}

#[test]
fn generated_ids_have_their_prefix() {
    assert!(id_shape_ok(SourceId::generate().as_str(), "src"));
    assert!(id_shape_ok(DocId::generate().as_str(), "doc"));
    assert!(id_shape_ok(ChunkId::generate().as_str(), "chk"));
    let fixed = DocId::from_string("doc-123abc".to_string());
    assert_eq!(fixed.as_str(), "doc-123abc");
}

#[test]
fn chunk_new_and_with_metadata() {
    let doc = DocId::from_string("doc-000000".to_string());
    let pos = ChunkPosition { index: 1, start_line: 2, end_line: 3, start_byte: 4, end_byte: 9 };
    let c = Chunk::new(doc.clone(), "hello".to_string(), pos);
    assert!(id_shape_ok(c.id.as_str(), "chk"));
    assert_eq!(c.doc_id, doc);
    assert_eq!(c.text, "hello");
    assert_eq!(c.position, pos);
    assert!(c.metadata.section_title.is_none());
    assert_eq!(c.metadata.chunk_type, ChunkType::Prose);

    let meta = ChunkMetadata {
        section_title: Some("Intro".to_string()),
        language: Some("rust".to_string()),
        chunk_type: ChunkType::CodeBlock,
    };
    let c2 = c.with_metadata(meta);
    assert_eq!(c2.metadata.section_title.as_deref(), Some("Intro"));
    assert_eq!(c2.metadata.chunk_type, ChunkType::CodeBlock);
    assert_eq!(c2.text, "hello");
}

#[test]
fn search_query_builders() {
    let q = SearchQuery::new("tokio channels".to_string())
        .with_library("tokio-rs/tokio".to_string())
        .with_version("1.0".to_string())
        .with_mode(SearchMode::Word)
        .with_limit(3);
    assert_eq!(q.query, "tokio channels");
    assert_eq!(q.library.as_deref(), Some("tokio-rs/tokio"));
    assert_eq!(q.version.as_deref(), Some("1.0"));
    assert_eq!(q.mode, SearchMode::Word);
    assert_eq!(q.limit, 3);

    let bare = SearchQuery::new("x".to_string());
    assert!(bare.library.is_none());
    assert!(bare.version.is_none());
    assert_eq!(bare.mode, SearchMode::Hybrid);
    assert_eq!(bare.limit, 10);
}

#[test]
fn search_mode_parsing() {
    assert_eq!(SearchMode::parse("HYBRID"), Ok(SearchMode::Hybrid));
    assert_eq!(SearchMode::parse("word"), Ok(SearchMode::Word));
    assert_eq!(SearchMode::parse("Bm25"), Ok(SearchMode::Word));
    assert_eq!(SearchMode::parse("keyword"), Ok(SearchMode::Word));
    assert_eq!(SearchMode::parse("vector"), Ok(SearchMode::Vector));
    assert_eq!(SearchMode::parse("SEMANTIC"), Ok(SearchMode::Vector));
    assert_eq!(SearchMode::parse("embedding"), Ok(SearchMode::Vector));
    assert_eq!(
        SearchMode::parse("fuzzy"),
        Err("Unknown search mode: fuzzy".to_string())
    );
    assert_eq!(SearchMode::from_str("word"), Ok(SearchMode::Word));
}

#[test]
fn config_defaults() {
    let ing = IngestConfig::default();
    assert_eq!(ing.concurrency, 5);
    assert_eq!(ing.extensions, vec!["md", "mdx", "txt", "rst"]);
    let fresh = FreshnessConfig::default();
    assert_eq!(fresh.stale_days, 7);
    assert!(fresh.use_etag);
}

#[test]
fn document_new_hashes_and_measures() {
    let src = SourceId::from_string("src-aaaaaa".to_string());
    let d = Document::new(src.clone(), "guide/intro.md".to_string(), String::new());
    assert!(id_shape_ok(d.id.as_str(), "doc"));
    assert_eq!(d.source_id, src);
    assert_eq!(d.path, "guide/intro.md");
    // The blake3 digest of the empty input, in hex.
    assert_eq!(
        d.content_hash,
        "af1349b9f5f9a1a6a0404dea36dcc9499bcb25c9adc112b7cc9a93cae41f3262"
    );
    assert_eq!(d.metadata.size_bytes, 0);
    assert_eq!(d.metadata.line_count, 0);
    assert_eq!(d.fetched_at_ms, d.last_accessed_at_ms);

    let d2 = Document::new(src, "a.md".to_string(), "a\nbc\n".to_string())
        .with_title("A".to_string())
        .with_version("2".to_string());
    assert_eq!(
        d2.content_hash,
        hex::encode(blake3::hash(b"a\nbc\n").as_bytes())
    );
    assert_eq!(d2.metadata.size_bytes, 5);
    assert_eq!(d2.metadata.line_count, 2);
    assert_eq!(d2.title.as_deref(), Some("A"));
    assert_eq!(d2.version.as_deref(), Some("2"));
}

#[test]
fn line_counting() {
    assert_eq!(line_count(""), 0);
    assert_eq!(line_count("a"), 1);
    assert_eq!(line_count("a\n"), 1);
    assert_eq!(line_count("a\nb"), 2);
    assert_eq!(line_count("a\n\n"), 2);
}

#[test]
fn github_source_and_library_name() {
    let src = Source::new_github(
        "https://github.com/facebook/react/".to_string(),
        SourceConfig::default(),
    );
    assert!(id_shape_ok(src.id.as_str(), "src"));
    assert_eq!(src.kind, SourceType::GitHub);
    assert!(src.last_synced_at_ms.is_none());
    assert!(matches!(src.sync_status, SyncStatus::Pending));
    assert_eq!(src.library_name(), "facebook/react");

    let site = Source {
        id: SourceId::from_string("src-000000".to_string()),
        url: "https://docs.example.org/".to_string(),
        kind: SourceType::Website,
        config: SourceConfig::default(),
        created_at_ms: 0,
        last_synced_at_ms: None,
        sync_status: SyncStatus::Pending,
    };
    assert_eq!(site.library_name(), "https://docs.example.org/");
}

#[test]
fn source_type_detection() {
    assert_eq!(
        detect_source_type("https://github.com/rust-lang/rust").unwrap(),
        SourceType::GitHub
    );
    assert_eq!(
        detect_source_type("http://github.com/x/y").unwrap(),
        SourceType::GitHub
    );
    assert_eq!(
        detect_source_type("https://docs.example.org").unwrap(),
        SourceType::Website
    );
    match detect_source_type("ftp://example.org") {
        Err(e) => assert_eq!(e.message(), "Invalid source URL: ftp://example.org"),
        Ok(_) => panic!("expected a rejection"),
    }
}

#[test]
fn ingestion_accounting() {
    let mut total = IngestionResult::default();
    assert_eq!(total.sources_processed, 0);
    assert!(total.errors.is_empty());

    let mut part = IngestionResult::default();
    part.documents_fetched = 4;
    part.documents_skipped = 1;
    total.record_success(&part);
    total.record_success(&part);
    assert_eq!(total.sources_processed, 2);
    assert_eq!(total.documents_fetched, 8);
    assert_eq!(total.documents_skipped, 2);

    total.record_error("octocat/hello", "rate limited");
    assert_eq!(total.errors, vec!["octocat/hello: rate limited"]);
    assert_eq!(total.sources_processed, 2);
}

#[test]
fn error_exit_codes_and_messages() {
    assert_eq!(HelixDocsError::SourceNotFound("s".into()).exit_code(), 1);
    assert_eq!(HelixDocsError::DocumentNotFound("p".into(), "l".into()).exit_code(), 1);
    assert_eq!(HelixDocsError::SourceExists("s".into()).exit_code(), 2);
    assert_eq!(HelixDocsError::InvalidSourceUrl("u".into()).exit_code(), 3);
    assert_eq!(HelixDocsError::Config("c".into()).exit_code(), 3);
    assert_eq!(HelixDocsError::GitHubApi("g".into()).exit_code(), 4);
    assert_eq!(HelixDocsError::RateLimited(30).exit_code(), 4);
    assert_eq!(HelixDocsError::NoEmbeddings.exit_code(), 5);
    assert_eq!(HelixDocsError::LibraryNotFound("l".into()).exit_code(), 6);
    assert_eq!(HelixDocsError::Io("i".into()).exit_code(), 10);
    assert_eq!(HelixDocsError::Serialization("s".into()).exit_code(), 10);
    assert_eq!(HelixDocsError::Http("h".into()).exit_code(), 10);

    assert_eq!(
        HelixDocsError::RateLimited(30).message(),
        "Rate limited, retry after 30 seconds"
    );
    assert_eq!(
        HelixDocsError::DocumentNotFound("a.md".into(), "react".into()).message(),
        "Document not found: a.md in react"
    );
    assert_eq!(
        HelixDocsError::NoEmbeddings.message(),
        "No embeddings available, run `helix-docs ingest --embed` first"
    );
}
