//! Tests of decision-record metadata parsing.

use helix_core::adr::{parse_adr_kv, parse_adr_metadata, split_csv, split_lines};

#[test]
fn parse_full_record() {
    let raw = "# Use Postgres\n\n**Status:** Accepted\\\n**Date:** 2024-01-02\n**Deciders:** alice, bob\n**Tags:** db, storage\n\nBody text.\n";
    let (title, status, date, deciders, tags) = parse_adr_metadata(raw);
    assert_eq!(title.as_deref(), Some("Use Postgres"));
    assert_eq!(status.as_deref(), Some("accepted"));
    assert_eq!(date.as_deref(), Some("2024-01-02"));
    assert_eq!(deciders, vec!["alice", "bob"]);
    assert_eq!(tags, vec!["db", "storage"]);
}

#[test]
fn first_occurrences_win() {
    let raw = "# First\n# Second\n**Status:** Proposed\n**Status:** Accepted\n";
    let (title, status, _, _, _) = parse_adr_metadata(raw);
    assert_eq!(title.as_deref(), Some("First"));
    assert_eq!(status.as_deref(), Some("proposed"));
}

#[test]
fn empty_record_has_no_metadata() {
    let (title, status, date, deciders, tags) = parse_adr_metadata("just prose\nno markers\n");
    assert!(title.is_none());
    assert!(status.is_none());
    assert!(date.is_none());
    assert!(deciders.is_empty());
    assert!(tags.is_empty());
}

#[test]
fn kv_lines() {
    assert_eq!(
        parse_adr_kv("**Status:** Accepted", "Status").as_deref(),
        Some("Accepted")
    );
    assert_eq!(
        parse_adr_kv("**Date:** 2024-01-02\\", "Date").as_deref(),
        Some("2024-01-02")
    );
    assert_eq!(parse_adr_kv("**Status:**   ", "Status"), None);
    assert_eq!(parse_adr_kv("Status: Accepted", "Status"), None);
    assert_eq!(parse_adr_kv("**Status:** Accepted", "Date"), None);
}

#[test]
fn csv_values() {
    assert_eq!(split_csv("a, b , ,c"), vec!["a", "b", "c"]);
    assert_eq!(split_csv(""), Vec::<String>::new());
    assert_eq!(split_csv(" , ,"), Vec::<String>::new());
    assert_eq!(split_csv("solo"), vec!["solo"]);
}

#[test]
fn line_splitting() {
    assert_eq!(split_lines("a\r\nb\nc"), vec!["a", "b", "c"]);
    assert_eq!(split_lines("a\n"), vec!["a"]);
    assert_eq!(split_lines(""), Vec::<String>::new());
    assert_eq!(split_lines("a\n\nb"), vec!["a", "", "b"]);
    assert_eq!(split_lines("tail\r"), vec!["tail\r"]);
}
