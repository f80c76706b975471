//! The error taxonomy of the documentation cache, with its process exit
//! codes and message texts. Failures of outside transports and codecs are
//! carried as their message text.

use vstd::prelude::*;
use vstd::string::StringExecFns;

use crate::text::{dec_rep, u64_to_dec};

verus! {

/// Everything that can go wrong handling a documentation command.
#[derive(Debug)]
pub enum HelixDocsError {
    SourceNotFound(String),
    SourceExists(String),
    InvalidSourceUrl(String),
    GitHubApi(String),
    /// Seconds to wait before retrying.
    RateLimited(u64),
    /// A document path and the library it was looked up in.
    DocumentNotFound(String, String),
    LibraryNotFound(String),
    NoEmbeddings,
    Config(String),
    Io(String),
    Serialization(String),
    Http(String),
}

/// The message each error renders to.
pub open spec fn spec_error_message(e: HelixDocsError) -> Seq<char> {
    match e {
        HelixDocsError::SourceNotFound(s) => "Source not found: "@ + s@,
        HelixDocsError::SourceExists(s) => "Source already exists: "@ + s@,
        HelixDocsError::InvalidSourceUrl(s) => "Invalid source URL: "@ + s@,
        HelixDocsError::GitHubApi(s) => "GitHub API error: "@ + s@,
        HelixDocsError::RateLimited(n) => "Rate limited, retry after "@ + dec_rep(n as nat)
            + " seconds"@,
        HelixDocsError::DocumentNotFound(p, l) => "Document not found: "@ + p@ + " in "@ + l@,
        HelixDocsError::LibraryNotFound(s) => "Library not found: "@ + s@,
        HelixDocsError::NoEmbeddings => "No embeddings available, run `helix-docs ingest --embed` first"@,
        HelixDocsError::Config(s) => "Configuration error: "@ + s@,
        HelixDocsError::Io(s) => "IO error: "@ + s@,
        HelixDocsError::Serialization(s) => "Serialization error: "@ + s@,
        HelixDocsError::Http(s) => "HTTP error: "@ + s@,
    }
}

impl HelixDocsError {
    /// The process exit code each error maps to.
    pub fn exit_code(&self) -> (r: i32)
        ensures
            r == (match self {
                HelixDocsError::SourceNotFound(_) => 1int,
                HelixDocsError::DocumentNotFound(_, _) => 1int,
                HelixDocsError::SourceExists(_) => 2int,
                HelixDocsError::InvalidSourceUrl(_) => 3int,
                HelixDocsError::Config(_) => 3int,
                HelixDocsError::GitHubApi(_) => 4int,
                HelixDocsError::RateLimited(_) => 4int,
                HelixDocsError::NoEmbeddings => 5int,
                HelixDocsError::LibraryNotFound(_) => 6int,
                HelixDocsError::Io(_) => 10int,
                HelixDocsError::Serialization(_) => 10int,
                HelixDocsError::Http(_) => 10int,
            }),
    {
        match self {
            HelixDocsError::SourceNotFound(_) | HelixDocsError::DocumentNotFound(_, _) => 1,
            HelixDocsError::SourceExists(_) => 2,
            HelixDocsError::InvalidSourceUrl(_) | HelixDocsError::Config(_) => 3,
            HelixDocsError::GitHubApi(_) | HelixDocsError::RateLimited(_) => 4,
            HelixDocsError::NoEmbeddings => 5,
            HelixDocsError::LibraryNotFound(_) => 6,
            HelixDocsError::Io(_) | HelixDocsError::Serialization(_) | HelixDocsError::Http(_) => 10,
        }
    }

    /// Renders the error message.
    pub fn message(&self) -> (r: String)
        ensures
            r@ == spec_error_message(*self),
    {
        match self {
            HelixDocsError::SourceNotFound(s) => {
                let mut m = "Source not found: ".to_owned();
                m.append(s.as_str());
                m
            },
            HelixDocsError::SourceExists(s) => {
                let mut m = "Source already exists: ".to_owned();
                m.append(s.as_str());
                m
            },
            HelixDocsError::InvalidSourceUrl(s) => {
                let mut m = "Invalid source URL: ".to_owned();
                m.append(s.as_str());
                m
            },
            HelixDocsError::GitHubApi(s) => {
                let mut m = "GitHub API error: ".to_owned();
                m.append(s.as_str());
                m
            },
            HelixDocsError::RateLimited(n) => {
                let mut m = "Rate limited, retry after ".to_owned();
                let secs = u64_to_dec(*n);
                m.append(secs.as_str());
                m.append(" seconds");
                m
            },
            HelixDocsError::DocumentNotFound(p, l) => {
                let mut m = "Document not found: ".to_owned();
                m.append(p.as_str());
                m.append(" in ");
                m.append(l.as_str());
                m
            },
            HelixDocsError::LibraryNotFound(s) => {
                let mut m = "Library not found: ".to_owned();
                m.append(s.as_str());
                m
            },
            HelixDocsError::NoEmbeddings => {
                "No embeddings available, run `helix-docs ingest --embed` first".to_owned()
            },
            HelixDocsError::Config(s) => {
                let mut m = "Configuration error: ".to_owned();
                m.append(s.as_str());
                m
            },
            HelixDocsError::Io(s) => {
                let mut m = "IO error: ".to_owned();
                m.append(s.as_str());
                m
            },
            HelixDocsError::Serialization(s) => {
                let mut m = "Serialization error: ".to_owned();
                m.append(s.as_str());
                m
            },
            HelixDocsError::Http(s) => {
                let mut m = "HTTP error: ".to_owned();
                m.append(s.as_str());
                m
            },
        }
    }
}

} // verus!
