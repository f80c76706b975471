//! The sync queue: an in-memory, admission-controlled job table keyed by
//! (repo_root, tool, directory).
//!
//! The table holds one entry per distinct key ever enqueued; admitting a new
//! job for a key supersedes the key's previous job, which then stops being
//! reachable by id. At most one active (queued or running) job exists per
//! key; a force-less enqueue that hits an active job returns that job's id
//! instead of admitting new work.

use vstd::prelude::*;

verus! {

/// The unit of deduplication: two requests with an identical key refer to
/// the same logical unit of work.
pub struct QueueKey {
    pub repo_root: String,
    pub tool: String,
    pub directory: String,
}

/// Job lifecycle states; `Succeeded` and `Failed` are terminal.
#[derive(Clone, Copy, PartialEq, Eq, Structural, Debug)]
pub enum JobState {
    Queued,
    Running,
    Succeeded,
    Failed,
}

/// Counters reported by the executor when a sync completes.
#[derive(Clone, Copy, PartialEq, Eq, Structural, Debug)]
pub struct SyncStats {
    pub scanned: u64,
    pub indexed: u64,
    pub removed: u64,
}

/// One admitted unit of work.
pub struct Job {
    /// Unique within the daemon's lifetime.
    pub sync_id: u64,
    pub key: QueueKey,
    pub state: JobState,
    /// Milliseconds on the daemon's clock when the job was admitted.
    pub queued_at_ms: u64,
    /// Populated when the job reaches a terminal state, if the executor
    /// reported counters.
    pub stats: Option<SyncStats>,
}

/// The three key components of a job, as character sequences.
pub open spec fn job_key(j: Job) -> (Seq<char>, Seq<char>, Seq<char>) {
    (j.key.repo_root@, j.key.tool@, j.key.directory@)
}

/// Whether a job still occupies its key's active slot.
pub open spec fn is_active(s: JobState) -> bool {
    s == JobState::Queued || s == JobState::Running
}

/// Index of the first job with key `k`, or -1 when no job has it.
pub open spec fn find_key_idx(s: Seq<Job>, k: (Seq<char>, Seq<char>, Seq<char>)) -> int
    decreases s.len(),
{
    if s.len() == 0 {
        -1
    } else if job_key(s[0]) == k {
        0
    } else {
        let r = find_key_idx(s.drop_first(), k);
        if r == -1 {
            -1
        } else {
            r + 1
        }
    }
}

/// Index of the first job with identifier `id`, or -1 when none has it.
pub open spec fn find_id_idx(s: Seq<Job>, id: u64) -> int
    decreases s.len(),
{
    if s.len() == 0 {
        -1
    } else if s[0].sync_id == id {
        0
    } else {
        let r = find_id_idx(s.drop_first(), id);
        if r == -1 {
            -1
        } else {
            r + 1
        }
    }
}

/// What `find_key_idx` returns: either -1 and no job has the key, or the
/// first index whose job has it.
pub proof fn lemma_find_key_idx_props(s: Seq<Job>, k: (Seq<char>, Seq<char>, Seq<char>))
    ensures
        find_key_idx(s, k) == -1 ==> forall|i: int| 0 <= i < s.len() ==> job_key(#[trigger] s[i]) != k,
        find_key_idx(s, k) != -1 ==> {
            let r = find_key_idx(s, k);
            &&& 0 <= r < s.len()
            &&& job_key(s[r]) == k
            &&& forall|i: int| 0 <= i < r ==> job_key(#[trigger] s[i]) != k
        },
    decreases s.len(),
{
    if s.len() > 0 && job_key(s[0]) != k {
        lemma_find_key_idx_props(s.drop_first(), k);
        assert(forall|i: int|
            1 <= i < s.len() ==> #[trigger] s[i] == s.drop_first()[i - 1]);
    }
}

/// `find_key_idx` returns `i` whenever `i` is the first index with key `k`.
pub proof fn lemma_find_key_idx_of(s: Seq<Job>, k: (Seq<char>, Seq<char>, Seq<char>), i: int)
    requires
        0 <= i < s.len(),
        job_key(s[i]) == k,
        forall|j: int| 0 <= j < i ==> job_key(#[trigger] s[j]) != k,
    ensures
        find_key_idx(s, k) == i,
    decreases s.len(),
{
    if i > 0 {
        assert(forall|j: int|
            1 <= j < s.len() ==> #[trigger] s[j] == s.drop_first()[j - 1]);
        lemma_find_key_idx_of(s.drop_first(), k, i - 1);
    }
}

/// `find_key_idx` returns -1 when no job has key `k`.
pub proof fn lemma_find_key_idx_none(s: Seq<Job>, k: (Seq<char>, Seq<char>, Seq<char>))
    requires
        forall|i: int| 0 <= i < s.len() ==> job_key(#[trigger] s[i]) != k,
    ensures
        find_key_idx(s, k) == -1,
    decreases s.len(),
{
    if s.len() > 0 {
        assert(forall|i: int|
            1 <= i < s.len() ==> #[trigger] s[i] == s.drop_first()[i - 1]);
        lemma_find_key_idx_none(s.drop_first(), k);
    }
}

/// What `find_id_idx` returns, in the same shape as `lemma_find_key_idx_props`.
pub proof fn lemma_find_id_idx_props(s: Seq<Job>, id: u64)
    ensures
        find_id_idx(s, id) == -1 ==> forall|i: int|
            0 <= i < s.len() ==> (#[trigger] s[i]).sync_id != id,
        find_id_idx(s, id) != -1 ==> {
            let r = find_id_idx(s, id);
            &&& 0 <= r < s.len()
            &&& s[r].sync_id == id
            &&& forall|i: int| 0 <= i < r ==> (#[trigger] s[i]).sync_id != id
        },
    decreases s.len(),
{
    if s.len() > 0 && s[0].sync_id != id {
        lemma_find_id_idx_props(s.drop_first(), id);
        assert(forall|i: int|
            1 <= i < s.len() ==> #[trigger] s[i] == s.drop_first()[i - 1]);
    }
}

/// `find_id_idx` returns `i` whenever `i` is the first index with id `id`.
pub proof fn lemma_find_id_idx_of(s: Seq<Job>, id: u64, i: int)
    requires
        0 <= i < s.len(),
        s[i].sync_id == id,
        forall|j: int| 0 <= j < i ==> (#[trigger] s[j]).sync_id != id,
    ensures
        find_id_idx(s, id) == i,
    decreases s.len(),
{
    if i > 0 {
        assert(forall|j: int|
            1 <= j < s.len() ==> #[trigger] s[j] == s.drop_first()[j - 1]);
        lemma_find_id_idx_of(s.drop_first(), id, i - 1);
    }
}

/// `find_id_idx` returns -1 when no job has identifier `id`.
pub proof fn lemma_find_id_idx_none(s: Seq<Job>, id: u64)
    requires
        forall|i: int| 0 <= i < s.len() ==> (#[trigger] s[i]).sync_id != id,
    ensures
        find_id_idx(s, id) == -1,
    decreases s.len(),
{
    if s.len() > 0 {
        assert(forall|i: int|
            1 <= i < s.len() ==> #[trigger] s[i] == s.drop_first()[i - 1]);
        lemma_find_id_idx_none(s.drop_first(), id);
    }
}

/// Well-formedness of the job table: keys are distinct (one entry per key),
/// identifiers are distinct, and every identifier is below the counter.
pub open spec fn wf_jobs(s: Seq<Job>, next: u64) -> bool {
    &&& forall|i: int, j: int|
        0 <= i < j < s.len() ==> job_key(#[trigger] s[i]) != job_key(#[trigger] s[j])
    &&& forall|i: int, j: int|
        0 <= i < j < s.len() ==> (#[trigger] s[i]).sync_id != (#[trigger] s[j]).sync_id
    &&& forall|i: int| 0 <= i < s.len() ==> (#[trigger] s[i]).sync_id < next
}

/// A newly admitted job: the given identifier and key, state `Queued`,
/// queued now, no stats yet.
pub open spec fn fresh_job(
    j: Job,
    repo_root: Seq<char>,
    tool: Seq<char>,
    dir: Seq<char>,
    id: u64,
    now_ms: u64,
) -> bool {
    &&& j.sync_id == id
    &&& j.key.repo_root@ == repo_root
    &&& j.key.tool@ == tool
    &&& j.key.directory@ == dir
    &&& j.state == JobState::Queued
    &&& j.queued_at_ms == now_ms
    &&& j.stats is None
}

/// The admission-control transition: how one `enqueue` call takes the table
/// from `pre` to `post` and what it returns.
///
/// If an active job already holds the key and `force` is false, nothing
/// changes and that job's id comes back with `is_new == false`. Otherwise a
/// fresh job is admitted under the next identifier: it replaces the key's
/// entry when one exists (supersession) and is appended when the key is new.
pub open spec fn enqueue_post(
    pre: Seq<Job>,
    pre_next: u64,
    post: Seq<Job>,
    post_next: u64,
    repo_root: Seq<char>,
    tool: Seq<char>,
    dir: Seq<char>,
    force: bool,
    now_ms: u64,
    id: u64,
    is_new: bool,
) -> bool {
    let k = (repo_root, tool, dir);
    let ki = find_key_idx(pre, k);
    if ki >= 0 && is_active(pre[ki].state) && !force {
        &&& post == pre
        &&& post_next == pre_next
        &&& id == pre[ki].sync_id
        &&& is_new == false
    } else {
        &&& is_new == true
        &&& id == pre_next
        &&& post_next == pre_next + 1
        &&& if ki >= 0 {
            &&& post.len() == pre.len()
            &&& (forall|i: int| 0 <= i < pre.len() && i != ki ==> post[i] == pre[i])
            &&& fresh_job(post[ki], repo_root, tool, dir, pre_next, now_ms)
        } else {
            &&& post.len() == pre.len() + 1
            &&& (forall|i: int| 0 <= i < pre.len() ==> post[i] == pre[i])
            &&& fresh_job(post[pre.len() as int], repo_root, tool, dir, pre_next, now_ms)
        }
    }
}

/// The job table. The only shared mutable state of the daemon; the rim
/// wraps it in one mutual-exclusion domain, so every operation here is one
/// atomic decision.
pub struct SyncQueue {
    jobs: Vec<Job>,
    next_id: u64,
}

impl View for SyncQueue {
    type V = Seq<Job>;

    closed spec fn view(&self) -> Seq<Job> {
        self.jobs@
    }
}

impl SyncQueue {
    /// The identifier the next admitted job will get.
    pub closed spec fn spec_next_id(&self) -> u64 {
        self.next_id
    }

    /// Invariant of the table; established by `new` and preserved by every
    /// operation.
    pub open spec fn wf(&self) -> bool {
        wf_jobs(self@, self.spec_next_id())
    }

    /// An empty table; identifiers start at 1.
    pub fn new() -> (q: SyncQueue)
        ensures
            q.wf(),
            q@ == Seq::<Job>::empty(),
            q.spec_next_id() == 1,
    {
        let q = SyncQueue { jobs: Vec::new(), next_id: 1 };
        proof {
            assert(q@ =~= Seq::<Job>::empty());
        }
        q
    }

    /// Index of the entry holding the given key, if any.
    fn find_key(&self, repo_root: &String, tool: &String, directory: &String) -> (r: Option<usize>)
        ensures
            match r {
                Some(i) => i < self@.len() && find_key_idx(
                    self@,
                    (repo_root@, tool@, directory@),
                ) == i as int,
                None => find_key_idx(self@, (repo_root@, tool@, directory@)) == -1,
            },
    {
        let ghost k = (repo_root@, tool@, directory@);
        let n = self.jobs.len();
        let mut i: usize = 0;
        while i < n
            invariant
                i <= n,
                n == self@.len(),
                k == (repo_root@, tool@, directory@),
                forall|j: int| 0 <= j < i ==> job_key(#[trigger] self@[j]) != k,
            decreases n - i,
        {
            let j = &self.jobs[i];
            if j.key.repo_root == *repo_root && j.key.tool == *tool && j.key.directory
                == *directory {
                proof {
                    lemma_find_key_idx_of(self@, k, i as int);
                }
                return Some(i);
            }
            i += 1;
        }
        proof {
            lemma_find_key_idx_none(self@, k);
        }
        None
    }

    /// Index of the entry holding the given identifier, if any.
    fn find_id(&self, sync_id: u64) -> (r: Option<usize>)
        ensures
            match r {
                Some(i) => i < self@.len() && find_id_idx(self@, sync_id) == i as int,
                None => find_id_idx(self@, sync_id) == -1,
            },
    {
        let n = self.jobs.len();
        let mut i: usize = 0;
        while i < n
            invariant
                i <= n,
                n == self@.len(),
                forall|j: int| 0 <= j < i ==> (#[trigger] self@[j]).sync_id != sync_id,
            decreases n - i,
        {
            if self.jobs[i].sync_id == sync_id {
                proof {
                    lemma_find_id_idx_of(self@, sync_id, i as int);
                }
                return Some(i);
            }
            i += 1;
        }
        proof {
            lemma_find_id_idx_none(self@, sync_id);
        }
        None
    }

    /// Admission control. Returns the job id to report and whether new work
    /// was admitted; `None` only when the identifier space is exhausted.
    ///
    /// The caller passes the current reading of the daemon's monotonic
    /// clock; this function never blocks on the work itself.
    pub fn enqueue(
        &mut self,
        repo_root: &String,
        tool: &String,
        directory: &String,
        force: bool,
        now_ms: u64,
    ) -> (r: Option<(u64, bool)>)
        requires
            old(self).wf(),
        ensures
            final(self).wf(),
            match r {
                Some(p) => enqueue_post(
                    old(self)@,
                    old(self).spec_next_id(),
                    final(self)@,
                    final(self).spec_next_id(),
                    repo_root@,
                    tool@,
                    directory@,
                    force,
                    now_ms,
                    p.0,
                    p.1,
                ),
                None => {
                    &&& final(self)@ == old(self)@
                    &&& final(self).spec_next_id() == old(self).spec_next_id()
                    &&& old(self).spec_next_id() == u64::MAX
                    &&& ({
                        let ki = find_key_idx(old(self)@, (repo_root@, tool@, directory@));
                        !(ki >= 0 && is_active(old(self)@[ki].state) && !force)
                    })
                },
            },
    {
        let ghost k = (repo_root@, tool@, directory@);
        let found = self.find_key(repo_root, tool, directory);
        if let Some(i) = found {
            let j = &self.jobs[i];
            if !force && (matches!(j.state, JobState::Queued) || matches!(
                j.state,
                JobState::Running,
            )) {
                return Some((j.sync_id, false));
            }
        }
        if self.next_id == u64::MAX {
            return None;
        }
        let id = self.next_id;
        self.next_id = self.next_id + 1;
        let nj = Job {
            sync_id: id,
            key: QueueKey {
                repo_root: repo_root.clone(),
                tool: tool.clone(),
                directory: directory.clone(),
            },
            state: JobState::Queued,
            queued_at_ms: now_ms,
            stats: None,
        };
        match found {
            Some(i) => {
                self.jobs.set(i, nj);
            },
            None => {
                self.jobs.push(nj);
            },
        }
        proof {
            lemma_find_key_idx_props(old(self)@, k);
            assert forall|i: int, j: int| 0 <= i < j < self@.len() implies job_key(
                #[trigger] self@[i],
            ) != job_key(#[trigger] self@[j]) by {
                let ki = find_key_idx(old(self)@, k);
                if ki >= 0 {
                    assert(job_key(old(self)@[ki]) == k);
                }
            }
        }
        Some((id, true))
    }

    /// Point read: a snapshot of the job with the given identifier.
    pub fn get(&self, sync_id: u64) -> (r: Option<Job>)
        ensures
            match r {
                Some(j) => find_id_idx(self@, sync_id) >= 0 && j == self@[find_id_idx(
                    self@,
                    sync_id,
                )],
                None => find_id_idx(self@, sync_id) == -1,
            },
    {
        match self.find_id(sync_id) {
            Some(i) => {
                let j = &self.jobs[i];
                Some(
                    Job {
                        sync_id: j.sync_id,
                        key: QueueKey {
                            repo_root: j.key.repo_root.clone(),
                            tool: j.key.tool.clone(),
                            directory: j.key.directory.clone(),
                        },
                        state: j.state,
                        queued_at_ms: j.queued_at_ms,
                        stats: j.stats,
                    },
                )
            },
            None => None,
        }
    }

    /// Marks the job `Running`. Only a `Queued` job changes; anything else
    /// is left untouched and reported as `false`.
    pub fn mark_running(&mut self, sync_id: u64) -> (r: bool)
        requires
            old(self).wf(),
        ensures
            final(self).wf(),
            final(self).spec_next_id() == old(self).spec_next_id(),
            final(self)@.len() == old(self)@.len(),
            ({
                let fi = find_id_idx(old(self)@, sync_id);
                if fi >= 0 && old(self)@[fi].state == JobState::Queued {
                    &&& r == true
                    &&& (forall|i: int|
                        0 <= i < final(self)@.len() && i != fi ==> final(self)@[i] == old(self)@[i])
                    &&& final(self)@[fi].sync_id == old(self)@[fi].sync_id
                    &&& final(self)@[fi].key.repo_root@ == old(self)@[fi].key.repo_root@
                    &&& final(self)@[fi].key.tool@ == old(self)@[fi].key.tool@
                    &&& final(self)@[fi].key.directory@ == old(self)@[fi].key.directory@
                    &&& final(self)@[fi].queued_at_ms == old(self)@[fi].queued_at_ms
                    &&& final(self)@[fi].stats == old(self)@[fi].stats
                    &&& final(self)@[fi].state == JobState::Running
                } else {
                    r == false && final(self)@ == old(self)@
                }
            }),
    {
        match self.find_id(sync_id) {
            Some(i) => {
                let j = &self.jobs[i];
                if matches!(j.state, JobState::Queued) {
                    let nj = Job {
                        sync_id: j.sync_id,
                        key: QueueKey {
                            repo_root: j.key.repo_root.clone(),
                            tool: j.key.tool.clone(),
                            directory: j.key.directory.clone(),
                        },
                        state: JobState::Running,
                        queued_at_ms: j.queued_at_ms,
                        stats: j.stats,
                    };
                    self.jobs.set(i, nj);
                    true
                } else {
                    false
                }
            },
            None => false,
        }
    }

    /// Marks the job terminal with the executor's outcome and stats. Only an
    /// active job changes; a second completion signal for the same job is
    /// ignored and reported as `false`.
    pub fn mark_terminal(&mut self, sync_id: u64, success: bool, stats: Option<SyncStats>) -> (r:
        bool)
        requires
            old(self).wf(),
        ensures
            final(self).wf(),
            final(self).spec_next_id() == old(self).spec_next_id(),
            final(self)@.len() == old(self)@.len(),
            ({
                let fi = find_id_idx(old(self)@, sync_id);
                if fi >= 0 && is_active(old(self)@[fi].state) {
                    &&& r == true
                    &&& (forall|i: int|
                        0 <= i < final(self)@.len() && i != fi ==> final(self)@[i] == old(self)@[i])
                    &&& final(self)@[fi].sync_id == old(self)@[fi].sync_id
                    &&& final(self)@[fi].key.repo_root@ == old(self)@[fi].key.repo_root@
                    &&& final(self)@[fi].key.tool@ == old(self)@[fi].key.tool@
                    &&& final(self)@[fi].key.directory@ == old(self)@[fi].key.directory@
                    &&& final(self)@[fi].queued_at_ms == old(self)@[fi].queued_at_ms
                    &&& final(self)@[fi].stats == stats
                    &&& final(self)@[fi].state == (if success {
                        JobState::Succeeded
                    } else {
                        JobState::Failed
                    })
                } else {
                    r == false && final(self)@ == old(self)@
                }
            }),
    {
        match self.find_id(sync_id) {
            Some(i) => {
                let j = &self.jobs[i];
                if matches!(j.state, JobState::Queued) || matches!(j.state, JobState::Running) {
                    let nj = Job {
                        sync_id: j.sync_id,
                        key: QueueKey {
                            repo_root: j.key.repo_root.clone(),
                            tool: j.key.tool.clone(),
                            directory: j.key.directory.clone(),
                        },
                        state: if success {
                            JobState::Succeeded
                        } else {
                            JobState::Failed
                        },
                        queued_at_ms: j.queued_at_ms,
                        stats,
                    };
                    self.jobs.set(i, nj);
                    true
                } else {
                    false
                }
            },
            None => false,
        }
    }

    /// One status line per distinct key ever enqueued, in first-enqueue
    /// order, reflecting the key's current job and its age on the daemon's
    /// clock.
    pub fn list_queues(&self, now_ms: u64) -> (r: Vec<QueueEntry>)
        ensures
            r@.len() == self@.len(),
            forall|i: int| 0 <= i < self@.len() ==> entry_matches(#[trigger] r@[i], self@[i], now_ms),
    {
        let n = self.jobs.len();
        let mut out: Vec<QueueEntry> = Vec::new();
        let mut i: usize = 0;
        while i < n
            invariant
                i <= n,
                n == self@.len(),
                out@.len() == i,
                forall|j: int| 0 <= j < i ==> entry_matches(#[trigger] out@[j], self@[j], now_ms),
            decreases n - i,
        {
            let j = &self.jobs[i];
            let age_ms = if now_ms >= j.queued_at_ms {
                now_ms - j.queued_at_ms
            } else {
                0
            };
            out.push(
                QueueEntry {
                    repo_root: j.key.repo_root.clone(),
                    tool: j.key.tool.clone(),
                    directory: j.key.directory.clone(),
                    sync_id: j.sync_id,
                    state: j.state,
                    age_ms,
                },
            );
            i += 1;
        }
        out
    }
}

/// One line of a `Status` report.
pub struct QueueEntry {
    pub repo_root: String,
    pub tool: String,
    pub directory: String,
    pub sync_id: u64,
    pub state: JobState,
    pub age_ms: u64,
}

/// A status line faithfully reports its job: same key, id and state, and
/// the job's age on the daemon's clock (zero if the clock reads earlier
/// than the admission instant).
pub open spec fn entry_matches(e: QueueEntry, j: Job, now_ms: u64) -> bool {
    &&& e.repo_root@ == j.key.repo_root@
    &&& e.tool@ == j.key.tool@
    &&& e.directory@ == j.key.directory@
    &&& e.sync_id == j.sync_id
    &&& e.state == j.state
    &&& e.age_ms == (if now_ms >= j.queued_at_ms {
        now_ms - j.queued_at_ms
    } else {
        0
    })
}

} // verus!

verus! {

/// After an admission (`is_new == true`), the enqueued key's entry is the
/// freshly admitted job: it sits at the superseded entry's index, or at the
/// end when the key is new.
proof fn lemma_enqueue_admit_find(
    pre: Seq<Job>,
    pre_next: u64,
    post: Seq<Job>,
    post_next: u64,
    repo_root: Seq<char>,
    tool: Seq<char>,
    dir: Seq<char>,
    force: bool,
    now_ms: u64,
    id: u64,
)
    requires
        enqueue_post(pre, pre_next, post, post_next, repo_root, tool, dir, force, now_ms, id, true),
    ensures
        find_key_idx(post, (repo_root, tool, dir)) == (if find_key_idx(
            pre,
            (repo_root, tool, dir),
        ) >= 0 {
            find_key_idx(pre, (repo_root, tool, dir))
        } else {
            pre.len() as int
        }),
        fresh_job(
            post[find_key_idx(post, (repo_root, tool, dir))],
            repo_root,
            tool,
            dir,
            id,
            now_ms,
        ),
{
    let k = (repo_root, tool, dir);
    let ki = find_key_idx(pre, k);
    lemma_find_key_idx_props(pre, k);
    if ki >= 0 {
        assert(job_key(post[ki]) == k);
        lemma_find_key_idx_of(post, k, ki);
    } else {
        assert(job_key(post[pre.len() as int]) == k);
        lemma_find_key_idx_of(post, k, pre.len() as int);
    }
}

/// Deduplication law: once a force-less enqueue has answered for a key,
/// a second force-less enqueue of the same key, with no completion in
/// between, changes nothing, reports `is_new == false`, and returns the
/// same identifier. The first call reports `is_new == true` exactly when
/// the table held no active job for the key; so of two racing force-less
/// enqueues from an idle key, serialized in either order by the table's
/// single mutual-exclusion domain, exactly one reports `is_new == true`
/// and both see one identifier.
pub proof fn lemma_enqueue_dedup(
    pre: Seq<Job>,
    pre_next: u64,
    mid: Seq<Job>,
    mid_next: u64,
    post: Seq<Job>,
    post_next: u64,
    repo_root: Seq<char>,
    tool: Seq<char>,
    dir: Seq<char>,
    now1: u64,
    now2: u64,
    id1: u64,
    new1: bool,
    id2: u64,
    new2: bool,
)
    requires
        wf_jobs(pre, pre_next),
        enqueue_post(pre, pre_next, mid, mid_next, repo_root, tool, dir, false, now1, id1, new1),
        enqueue_post(mid, mid_next, post, post_next, repo_root, tool, dir, false, now2, id2, new2),
    ensures
        id2 == id1,
        new2 == false,
        post == mid,
        post_next == mid_next,
        new1 == !({
            let ki = find_key_idx(pre, (repo_root, tool, dir));
            ki >= 0 && is_active(pre[ki].state)
        }),
{
    let k = (repo_root, tool, dir);
    let ki = find_key_idx(pre, k);
    lemma_find_key_idx_props(pre, k);
    if ki >= 0 && is_active(pre[ki].state) {
        assert(!new1);
        assert(mid == pre);
    } else {
        assert(new1);
        lemma_enqueue_admit_find(
            pre,
            pre_next,
            mid,
            mid_next,
            repo_root,
            tool,
            dir,
            false,
            now1,
            id1,
        );
        let mi = find_key_idx(mid, k);
        assert(fresh_job(mid[mi], repo_root, tool, dir, id1, now1));
        assert(is_active(mid[mi].state));
    }
}

/// Forced admission law: an enqueue with `force == true` always admits new
/// work, and its identifier differs from the identifier of every job in the
/// table before the call — in particular from the key's in-flight job.
pub proof fn lemma_enqueue_force_fresh(
    pre: Seq<Job>,
    pre_next: u64,
    post: Seq<Job>,
    post_next: u64,
    repo_root: Seq<char>,
    tool: Seq<char>,
    dir: Seq<char>,
    now_ms: u64,
    id: u64,
    is_new: bool,
)
    requires
        wf_jobs(pre, pre_next),
        enqueue_post(pre, pre_next, post, post_next, repo_root, tool, dir, true, now_ms, id, is_new),
    ensures
        is_new == true,
        forall|i: int| 0 <= i < pre.len() ==> (#[trigger] pre[i]).sync_id != id,
{
}

/// Status law: the table keeps exactly one entry per distinct key ever
/// enqueued. An enqueue leaves every other key's entry untouched, keeps the
/// keys distinct, and leaves the enqueued key's single entry reflecting the
/// key's current job: the fresh one on admission, the unchanged active one
/// on deduplication. The table grows only when the key was never seen.
pub proof fn lemma_enqueue_keys(
    pre: Seq<Job>,
    pre_next: u64,
    post: Seq<Job>,
    post_next: u64,
    repo_root: Seq<char>,
    tool: Seq<char>,
    dir: Seq<char>,
    force: bool,
    now_ms: u64,
    id: u64,
    is_new: bool,
)
    requires
        wf_jobs(pre, pre_next),
        enqueue_post(
            pre,
            pre_next,
            post,
            post_next,
            repo_root,
            tool,
            dir,
            force,
            now_ms,
            id,
            is_new,
        ),
    ensures
        wf_jobs(post, post_next),
        forall|i: int|
            0 <= i < pre.len() && job_key(#[trigger] pre[i]) != (repo_root, tool, dir) ==> post[i]
                == pre[i],
        ({
            let pi = find_key_idx(post, (repo_root, tool, dir));
            &&& 0 <= pi < post.len()
            &&& job_key(post[pi]) == (repo_root, tool, dir)
            &&& (is_new ==> fresh_job(post[pi], repo_root, tool, dir, id, now_ms))
            &&& (!is_new ==> post == pre && post[pi].sync_id == id && is_active(post[pi].state))
        }),
        post.len() == (if find_key_idx(pre, (repo_root, tool, dir)) >= 0 {
            pre.len() as int
        } else {
            pre.len() as int + 1
        }),
{
    let k = (repo_root, tool, dir);
    let ki = find_key_idx(pre, k);
    lemma_find_key_idx_props(pre, k);
    if ki >= 0 && is_active(pre[ki].state) && !force {
        assert(post == pre);
    } else {
        lemma_enqueue_admit_find(
            pre,
            pre_next,
            post,
            post_next,
            repo_root,
            tool,
            dir,
            force,
            now_ms,
            id,
        );
        assert forall|i: int, j: int| 0 <= i < j < post.len() implies job_key(#[trigger] post[i])
            != job_key(#[trigger] post[j]) by {
            if ki >= 0 {
                assert(job_key(post[ki]) == job_key(pre[ki]));
            }
        }
    }
}

} // verus!
