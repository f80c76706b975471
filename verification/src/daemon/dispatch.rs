//! The command dispatcher: the single place that maps a decoded request
//! onto a sync-queue operation and produces the response.
//!
//! A per-message error never touches the queue; a version mismatch is
//! rejected before the command runs. `WaitSync` cannot be answered
//! synchronously, so dispatching it yields an `AwaitJob` instruction that
//! the rim resolves with `wait_poll` until the job turns terminal or the
//! deadline passes (`wait_timeout_reply`).

use vstd::prelude::*;
use vstd::string::StringExecFns;

use crate::daemon::protocol::{
    Command, EnqueueSyncResponse, ErrorCode, PingResponse, Request, Response, ResponsePayload,
    ShutdownResponse, StatusResponse, WaitSyncResponse, is_error_response, DAEMON_VERSION,
    PROTOCOL_VERSION,
};
use crate::daemon::queue::{
    entry_matches, enqueue_post, find_id_idx, find_key_idx, is_active, Job, SyncQueue,
};
use crate::text::{dec_rep, dec_val, is_dec_seq, parse_u64, u64_to_dec};

verus! {

/// What the dispatcher tells the rim to do next.
pub enum Dispatched {
    /// Send the response; nothing else.
    Reply(Response),
    /// Send the response, then hand the admitted job to the executor.
    ReplyAndStart {
        response: Response,
        sync_id: u64,
        repo_root: String,
        tool: String,
        directory: String,
    },
    /// Suspend until the named job turns terminal or the timeout elapses,
    /// then answer with `wait_poll` / `wait_timeout_reply`.
    AwaitJob { request_id: String, sync_id: String, timeout_ms: u64 },
    /// Send the response, then raise the shutdown signal.
    ReplyAndShutdown(Response),
}

/// Message text of an `IncompatibleVersion` error: it carries both the
/// expected and the received version.
pub open spec fn version_mismatch_msg(got: u64) -> Seq<char> {
    "Protocol version mismatch: expected "@ + dec_rep(PROTOCOL_VERSION as nat) + ", got "@
        + dec_rep(got as nat)
}

/// Message text of a `Timeout` error, naming the sync id waited on.
pub open spec fn wait_timeout_msg(sync_id: Seq<char>) -> Seq<char> {
    "Timeout waiting for sync "@ + sync_id
}

/// A successful `Ping` reply.
pub open spec fn is_ping_reply(r: Response, id: Seq<char>) -> bool {
    &&& r.id@ == id
    &&& (r.outcome matches Ok(ResponsePayload::Ping(p)) && p.daemon_version@ == DAEMON_VERSION@)
}

/// A successful `EnqueueSync` reply: the job's id in decimal and the
/// reported job's admission instant.
pub open spec fn is_enqueue_reply(r: Response, id: Seq<char>, sync_id: u64, queued_at_ms: u64) -> bool {
    &&& r.id@ == id
    &&& (r.outcome matches Ok(ResponsePayload::EnqueueSync(p)) && p.sync_id@ == dec_rep(
        sync_id as nat,
    ) && p.queued_at_ms == queued_at_ms)
}

/// A successful `Status` reply: the process uptime and one faithful line
/// per entry of the job table.
pub open spec fn is_status_reply(
    r: Response,
    id: Seq<char>,
    jobs: Seq<Job>,
    now_ms: u64,
    uptime_ms: u64,
) -> bool {
    &&& r.id@ == id
    &&& (r.outcome matches Ok(ResponsePayload::Status(sr)) && sr.uptime_ms == uptime_ms
        && sr.queues@.len() == jobs.len() && (forall|i: int|
        0 <= i < jobs.len() ==> entry_matches(#[trigger] sr.queues@[i], jobs[i], now_ms)))
}

/// A successful `Shutdown` reply.
pub open spec fn is_shutdown_reply(r: Response, id: Seq<char>) -> bool {
    &&& r.id@ == id
    &&& (r.outcome matches Ok(ResponsePayload::Shutdown(_)))
}

/// The queue was not touched.
pub open spec fn queue_unchanged(pre: Seq<Job>, pre_next: u64, post: Seq<Job>, post_next: u64) -> bool {
    post == pre && post_next == pre_next
}

/// Full behavior of dispatching one version-valid request: which queue
/// transition happens and which instruction with which response comes back.
pub open spec fn dispatch_post(
    req: Request,
    pre: Seq<Job>,
    pre_next: u64,
    post: Seq<Job>,
    post_next: u64,
    d: Dispatched,
    now_ms: u64,
    uptime_ms: u64,
) -> bool {
    match req.command {
        Command::Ping => {
            &&& queue_unchanged(pre, pre_next, post, post_next)
            &&& (d matches Dispatched::Reply(r) && is_ping_reply(r, req.id@))
        },
        Command::EnqueueSync { directory, force } => {
            let k = (req.repo_root@, req.tool@, directory@);
            let ki = find_key_idx(pre, k);
            if ki >= 0 && is_active(pre[ki].state) && !force {
                &&& queue_unchanged(pre, pre_next, post, post_next)
                &&& (d matches Dispatched::Reply(r) && is_enqueue_reply(
                    r,
                    req.id@,
                    pre[ki].sync_id,
                    pre[ki].queued_at_ms,
                ))
            } else if pre_next < u64::MAX {
                &&& enqueue_post(
                    pre,
                    pre_next,
                    post,
                    post_next,
                    req.repo_root@,
                    req.tool@,
                    directory@,
                    force,
                    now_ms,
                    pre_next,
                    true,
                )
                &&& (d matches Dispatched::ReplyAndStart {
                    response,
                    sync_id,
                    repo_root,
                    tool,
                    directory: dir,
                } && is_enqueue_reply(response, req.id@, pre_next, now_ms) && sync_id == pre_next
                    && repo_root@ == req.repo_root@ && tool@ == req.tool@ && dir@ == directory@)
            } else {
                &&& queue_unchanged(pre, pre_next, post, post_next)
                &&& (d matches Dispatched::Reply(r) && is_error_response(
                    r,
                    req.id@,
                    ErrorCode::InternalError,
                    "Failed to create sync job"@,
                ))
            }
        },
        Command::WaitSync { sync_id, timeout_ms } => {
            &&& queue_unchanged(pre, pre_next, post, post_next)
            &&& (d matches Dispatched::AwaitJob { request_id, sync_id: s, timeout_ms: t }
                && request_id@ == req.id@ && s@ == sync_id@ && t == timeout_ms)
        },
        Command::Status => {
            &&& queue_unchanged(pre, pre_next, post, post_next)
            &&& (d matches Dispatched::Reply(r) && is_status_reply(
                r,
                req.id@,
                pre,
                now_ms,
                uptime_ms,
            ))
        },
        Command::Shutdown { .. } => {
            &&& queue_unchanged(pre, pre_next, post, post_next)
            &&& (d matches Dispatched::ReplyAndShutdown(r) && is_shutdown_reply(r, req.id@))
        },
    }
}

/// Builds the `IncompatibleVersion` message text.
fn make_version_mismatch_msg(got: u64) -> (r: String)
    ensures
        r@ == version_mismatch_msg(got),
{
    let mut s = "Protocol version mismatch: expected ".to_owned();
    let expected = u64_to_dec(PROTOCOL_VERSION);
    s.append(expected.as_str());
    s.append(", got ");
    let got_s = u64_to_dec(got);
    s.append(got_s.as_str());
    s
}

/// Executes one version-valid request against the queue. This is the only
/// mapping from commands to queue operations.
pub fn handle_command(req: &Request, queue: &mut SyncQueue, now_ms: u64, uptime_ms: u64) -> (d:
    Dispatched)
    requires
        old(queue).wf(),
        req.version == PROTOCOL_VERSION,
    ensures
        final(queue).wf(),
        dispatch_post(
            *req,
            old(queue)@,
            old(queue).spec_next_id(),
            final(queue)@,
            final(queue).spec_next_id(),
            d,
            now_ms,
            uptime_ms,
        ),
{
    match &req.command {
        Command::Ping => {
            let payload = ResponsePayload::Ping(
                PingResponse { daemon_version: DAEMON_VERSION.to_owned() },
            );
            Dispatched::Reply(Response::ok(&req.id, payload))
        },
        Command::EnqueueSync { directory, force } => {
            let ghost pre = queue@;
            let ghost pre_next = queue.spec_next_id();
            match queue.enqueue(&req.repo_root, &req.tool, directory, *force, now_ms) {
                Some((id, is_new)) => {
                    proof {
                        let k = (req.repo_root@, req.tool@, directory@);
                        let ki = find_key_idx(pre, k);
                        crate::daemon::queue::lemma_find_key_idx_props(pre, k);
                        crate::daemon::queue::lemma_find_id_idx_props(queue@, id);
                        if !is_new {
                            assert(queue@[ki].sync_id == id);
                            assert(find_id_idx(queue@, id) != -1) by {
                                if find_id_idx(queue@, id) == -1 {
                                    assert(queue@[ki].sync_id != id);
                                }
                            }
                            let fi = find_id_idx(queue@, id);
                            assert(fi == ki) by {
                                if fi != ki {
                                    assert(queue@[fi].sync_id != queue@[ki].sync_id);
                                }
                            }
                        } else {
                            let ai: int = if ki >= 0 {
                                ki
                            } else {
                                pre.len() as int
                            };
                            assert(queue@[ai].sync_id == id);
                            assert(find_id_idx(queue@, id) != -1) by {
                                if find_id_idx(queue@, id) == -1 {
                                    assert(queue@[ai].sync_id != id);
                                }
                            }
                            let fi = find_id_idx(queue@, id);
                            assert(fi == ai) by {
                                if fi != ai {
                                    assert(queue@[fi].sync_id != queue@[ai].sync_id);
                                }
                            }
                        }
                    }
                    let job = match queue.get(id) {
                        Some(j) => j,
                        None => vstd::pervasive::unreached(),
                    };
                    let payload = ResponsePayload::EnqueueSync(
                        EnqueueSyncResponse {
                            sync_id: u64_to_dec(id),
                            queued_at_ms: job.queued_at_ms,
                        },
                    );
                    let response = Response::ok(&req.id, payload);
                    if is_new {
                        Dispatched::ReplyAndStart {
                            response,
                            sync_id: id,
                            repo_root: req.repo_root.clone(),
                            tool: req.tool.clone(),
                            directory: directory.clone(),
                        }
                    } else {
                        Dispatched::Reply(response)
                    }
                },
                None => Dispatched::Reply(
                    Response::error(
                        &req.id,
                        ErrorCode::InternalError,
                        "Failed to create sync job".to_owned(),
                    ),
                ),
            }
        },
        Command::WaitSync { sync_id, timeout_ms } => Dispatched::AwaitJob {
            request_id: req.id.clone(),
            sync_id: sync_id.clone(),
            timeout_ms: *timeout_ms,
        },
        Command::Status => {
            let queues = queue.list_queues(now_ms);
            Dispatched::Reply(
                Response::ok(&req.id, ResponsePayload::Status(StatusResponse { queues, uptime_ms })),
            )
        },
        Command::Shutdown { .. } => Dispatched::ReplyAndShutdown(
            Response::ok(&req.id, ResponsePayload::Shutdown(ShutdownResponse {})),
        ),
    }
}

/// Gate and dispatch one decoded line: a decode failure answers
/// `InvalidRequest` with an empty correlation id, a version mismatch
/// answers `IncompatibleVersion` naming both versions — in both cases the
/// command is never executed — and only a version-valid request reaches
/// `handle_command`.
pub fn process_request(
    queue: &mut SyncQueue,
    decoded: Result<Request, String>,
    now_ms: u64,
    uptime_ms: u64,
) -> (d: Dispatched)
    requires
        old(queue).wf(),
    ensures
        final(queue).wf(),
        match decoded {
            Err(msg) => {
                &&& queue_unchanged(
                    old(queue)@,
                    old(queue).spec_next_id(),
                    final(queue)@,
                    final(queue).spec_next_id(),
                )
                &&& (d matches Dispatched::Reply(r) && is_error_response(
                    r,
                    ""@,
                    ErrorCode::InvalidRequest,
                    msg@,
                ))
            },
            Ok(req) => {
                if req.version != PROTOCOL_VERSION {
                    &&& queue_unchanged(
                        old(queue)@,
                        old(queue).spec_next_id(),
                        final(queue)@,
                        final(queue).spec_next_id(),
                    )
                    &&& (d matches Dispatched::Reply(r) && is_error_response(
                        r,
                        req.id@,
                        ErrorCode::IncompatibleVersion,
                        version_mismatch_msg(req.version),
                    ))
                } else {
                    dispatch_post(
                        req,
                        old(queue)@,
                        old(queue).spec_next_id(),
                        final(queue)@,
                        final(queue).spec_next_id(),
                        d,
                        now_ms,
                        uptime_ms,
                    )
                }
            },
        },
{
    match decoded {
        Err(msg) => {
            let empty = String::new();
            proof {
                reveal_strlit("");
                assert(empty@ =~= ""@);
            }
            Dispatched::Reply(Response::error(&empty, ErrorCode::InvalidRequest, msg))
        },
        Ok(req) => {
            if req.version != PROTOCOL_VERSION {
                let msg = make_version_mismatch_msg(req.version);
                Dispatched::Reply(Response::error(&req.id, ErrorCode::IncompatibleVersion, msg))
            } else {
                handle_command(&req, queue, now_ms, uptime_ms)
            }
        },
    }
}

/// Checks whether a `WaitSync` can be answered now: returns the success
/// response exactly when the named job exists and is terminal. An id that
/// does not parse, is unknown, was superseded, or is still active yields
/// `None` — the rim keeps waiting and, at the deadline, answers with
/// `wait_timeout_reply`, so an unknown id is indistinguishable from a
/// timeout.
pub fn wait_poll(queue: &SyncQueue, request_id: &String, sync_id: &String) -> (r: Option<Response>)
    ensures
        match r {
            Some(resp) => {
                &&& is_dec_seq(sync_id@)
                &&& dec_val(sync_id@) <= u64::MAX
                &&& ({
                    let fi = find_id_idx(queue@, dec_val(sync_id@) as u64);
                    &&& fi >= 0
                    &&& !is_active(queue@[fi].state)
                    &&& resp.id@ == request_id@
                    &&& (resp.outcome matches Ok(ResponsePayload::WaitSync(w)) && w.sync_id@
                        == sync_id@ && w.state == queue@[fi].state && w.stats == queue@[fi].stats)
                })
            },
            None => !({
                &&& is_dec_seq(sync_id@)
                &&& dec_val(sync_id@) <= u64::MAX
                &&& ({
                    let fi = find_id_idx(queue@, dec_val(sync_id@) as u64);
                    fi >= 0 && !is_active(queue@[fi].state)
                })
            }),
        },
{
    match parse_u64(sync_id.as_str()) {
        None => None,
        Some(id) => {
            match queue.get(id) {
                None => None,
                Some(job) => {
                    if matches!(job.state, crate::daemon::queue::JobState::Queued) || matches!(
                        job.state,
                        crate::daemon::queue::JobState::Running,
                    ) {
                        None
                    } else {
                        Some(
                            Response::ok(
                                request_id,
                                ResponsePayload::WaitSync(
                                    WaitSyncResponse {
                                        sync_id: sync_id.clone(),
                                        state: job.state,
                                        stats: job.stats,
                                    },
                                ),
                            ),
                        )
                    }
                },
            }
        },
    }
}

/// The `Timeout` error a `WaitSync` receives when its deadline passes
/// without the job turning terminal — the only error shape a wait can
/// produce, also for unknown and superseded ids.
pub fn wait_timeout_reply(request_id: &String, sync_id: &String) -> (r: Response)
    ensures
        is_error_response(r, request_id@, ErrorCode::Timeout, wait_timeout_msg(sync_id@)),
{
    let mut msg = "Timeout waiting for sync ".to_owned();
    msg.append(sync_id.as_str());
    Response::error(request_id, ErrorCode::Timeout, msg)
}

} // verus!
