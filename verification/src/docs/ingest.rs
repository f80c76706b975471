//! Accounting of one ingestion run. The fetching itself is asynchronous
//! I/O and lives outside the library; these are the aggregation steps its
//! driver performs per source.

use vstd::prelude::*;
use vstd::string::StringExecFns;

verus! {

/// Counters and failures accumulated over one ingestion run.
#[derive(Debug)]
pub struct IngestionResult {
    pub sources_processed: usize,
    pub documents_fetched: usize,
    pub documents_skipped: usize,
    pub chunks_created: usize,
    pub embeddings_generated: usize,
    /// One message per source that failed, as `name: reason`.
    pub errors: Vec<String>,
}

impl Default for IngestionResult {
    /// Nothing processed yet.
    fn default() -> (r: Self)
        ensures
            r.sources_processed == 0,
            r.documents_fetched == 0,
            r.documents_skipped == 0,
            r.chunks_created == 0,
            r.embeddings_generated == 0,
            r.errors@.len() == 0,
    {
        IngestionResult {
            sources_processed: 0,
            documents_fetched: 0,
            documents_skipped: 0,
            chunks_created: 0,
            embeddings_generated: 0,
            errors: Vec::new(),
        }
    }
}

impl IngestionResult {
    /// Folds one source's successful sub-result into the run total: its
    /// document counters are added and the source is counted as processed.
    pub fn record_success(&mut self, part: &IngestionResult)
        requires
            old(self).documents_fetched + part.documents_fetched <= usize::MAX,
            old(self).documents_skipped + part.documents_skipped <= usize::MAX,
            old(self).sources_processed < usize::MAX,
        ensures
            final(self).sources_processed == old(self).sources_processed + 1,
            final(self).documents_fetched == old(self).documents_fetched
                + part.documents_fetched,
            final(self).documents_skipped == old(self).documents_skipped
                + part.documents_skipped,
            final(self).chunks_created == old(self).chunks_created,
            final(self).embeddings_generated == old(self).embeddings_generated,
            final(self).errors == old(self).errors,
    {
        self.sources_processed = self.sources_processed + 1;
        self.documents_fetched = self.documents_fetched + part.documents_fetched;
        self.documents_skipped = self.documents_skipped + part.documents_skipped;
    }

    /// Records one source's failure as `name: reason`, touching nothing
    /// else.
    pub fn record_error(&mut self, source_name: &str, reason: &str)
        ensures
            final(self).errors@.len() == old(self).errors@.len() + 1,
            final(self).errors@.last()@ == source_name@ + ": "@ + reason@,
            forall|i: int|
                0 <= i < old(self).errors@.len() ==> final(self).errors@[i] == old(
                    self,
                ).errors@[i],
            final(self).sources_processed == old(self).sources_processed,
            final(self).documents_fetched == old(self).documents_fetched,
            final(self).documents_skipped == old(self).documents_skipped,
            final(self).chunks_created == old(self).chunks_created,
            final(self).embeddings_generated == old(self).embeddings_generated,
    {
        let mut msg = source_name.to_owned();
        msg.append(": ");
        msg.append(reason);
        self.errors.push(msg);
    }
}

} // verus!
