//! Tests of the daemon core: admission control, supersession, waiting,
//! dispatch, the version gate and the framing limit.

use helix_core::daemon::dispatch::{
    handle_command, process_request, wait_poll, wait_timeout_reply, Dispatched,
};
use helix_core::daemon::protocol::{
    line_fits, oversize_response, Command, ErrorCode, Request, Response, ResponsePayload,
    DAEMON_VERSION, MAX_MESSAGE_SIZE, PROTOCOL_VERSION,
};
use helix_core::daemon::queue::{JobState, SyncQueue, SyncStats};

fn s(x: &str) -> String {
    x.to_string()
}

fn request(id: &str, version: u64, command: Command) -> Request {
    Request {
        id: s(id),
        version,
        tool: s("decisions"),
        repo_root: s("/r"),
        command,
    }
}

fn expect_error(r: &Response, code: ErrorCode) -> String {
    match &r.outcome {
        Err(e) => {
            assert_eq!(e.code, code);
            e.message.clone()
        }
        Ok(_) => panic!("expected an error response"),
    }
}

#[test]
fn enqueue_dedup_same_id() {
    // Two force-less enqueues for one key before completion: one admission,
    // identical ids.
    let mut q = SyncQueue::new();
    let (id1, new1) = q.enqueue(&s("/r"), &s("t"), &s("d"), false, 10).unwrap();
    let (id2, new2) = q.enqueue(&s("/r"), &s("t"), &s("d"), false, 20).unwrap();
    assert!(new1);
    assert!(!new2);
    assert_eq!(id1, id2);
    let job = q.get(id1).unwrap();
    assert_eq!(job.state, JobState::Queued);
    assert_eq!(job.queued_at_ms, 10);
}

#[test]
fn enqueue_after_terminal_supersedes() {
    let mut q = SyncQueue::new();
    let (id1, _) = q.enqueue(&s("/r"), &s("t"), &s("d"), false, 10).unwrap();
    assert!(q.mark_running(id1));
    assert!(q.mark_terminal(id1, true, None));
    let (id2, new2) = q.enqueue(&s("/r"), &s("t"), &s("d"), false, 30).unwrap();
    assert!(new2);
    assert_ne!(id1, id2);
    // The superseded job is no longer reachable by its id.
    assert!(q.get(id1).is_none());
    assert_eq!(q.get(id2).unwrap().state, JobState::Queued);
}

#[test]
fn enqueue_force_yields_fresh_id() {
    // force=true admits new work even while a job is in flight.
    let mut q = SyncQueue::new();
    let (id1, new1) = q.enqueue(&s("/r"), &s("t"), &s("d"), false, 10).unwrap();
    assert!(new1);
    let (id2, new2) = q.enqueue(&s("/r"), &s("t"), &s("d"), true, 20).unwrap();
    assert!(new2);
    assert_ne!(id1, id2);
}

#[test]
fn mark_terminal_only_once() {
    let mut q = SyncQueue::new();
    let (id, _) = q.enqueue(&s("/r"), &s("t"), &s("d"), false, 10).unwrap();
    let stats = SyncStats { scanned: 3, indexed: 2, removed: 1 };
    assert!(q.mark_terminal(id, false, Some(stats)));
    // A second completion signal is ignored.
    assert!(!q.mark_terminal(id, true, None));
    let job = q.get(id).unwrap();
    assert_eq!(job.state, JobState::Failed);
    assert_eq!(job.stats, Some(stats));
}

#[test]
fn mark_running_only_from_queued() {
    let mut q = SyncQueue::new();
    let (id, _) = q.enqueue(&s("/r"), &s("t"), &s("d"), false, 10).unwrap();
    assert!(q.mark_running(id));
    assert!(!q.mark_running(id));
    assert!(!q.mark_running(999));
    assert_eq!(q.get(id).unwrap().state, JobState::Running);
}

#[test]
fn status_one_entry_per_key() {
    // Distinct keys get one entry each; re-enqueueing a key keeps one entry
    // reflecting the most recent job.
    let mut q = SyncQueue::new();
    let (a, _) = q.enqueue(&s("/r"), &s("t"), &s("d1"), false, 10).unwrap();
    let (b, _) = q.enqueue(&s("/r"), &s("t"), &s("d2"), false, 20).unwrap();
    q.mark_terminal(a, true, None);
    let (a2, _) = q.enqueue(&s("/r"), &s("t"), &s("d1"), false, 40).unwrap();
    let entries = q.list_queues(100);
    assert_eq!(entries.len(), 2);
    assert_eq!(entries[0].directory, "d1");
    assert_eq!(entries[0].sync_id, a2);
    assert_eq!(entries[0].state, JobState::Queued);
    assert_eq!(entries[0].age_ms, 60);
    assert_eq!(entries[1].directory, "d2");
    assert_eq!(entries[1].sync_id, b);
    assert_eq!(entries[1].age_ms, 80);
}

#[test]
fn enqueue_then_wait_scenario() {
    // Enqueue twice back to back, complete, then wait: the wait resolves
    // with the final state.
    let mut q = SyncQueue::new();
    let (x, new1) = q.enqueue(&s("r"), &s("t"), &s("d"), false, 0).unwrap();
    let (x2, new2) = q.enqueue(&s("r"), &s("t"), &s("d"), false, 1).unwrap();
    assert!(new1);
    assert!(!new2);
    assert_eq!(x, x2);
    // Before completion, a wait poll does not resolve.
    assert!(wait_poll(&q, &s("w"), &x.to_string()).is_none());
    q.mark_terminal(x, true, Some(SyncStats { scanned: 5, indexed: 4, removed: 0 }));
    let resp = wait_poll(&q, &s("w"), &x.to_string()).unwrap();
    assert_eq!(resp.id, "w");
    match resp.outcome.unwrap() {
        ResponsePayload::WaitSync(w) => {
            assert_eq!(w.sync_id, x.to_string());
            assert_eq!(w.state, JobState::Succeeded);
            assert_eq!(w.stats.unwrap().scanned, 5);
        }
        _ => panic!("expected a wait payload"),
    }
}

#[test]
fn wait_unknown_id_times_out() {
    // Unknown and superseded ids surface as Timeout, never another shape.
    let mut q = SyncQueue::new();
    assert!(wait_poll(&q, &s("w"), &s("42")).is_none());
    assert!(wait_poll(&q, &s("w"), &s("not-a-number")).is_none());
    let (id, _) = q.enqueue(&s("r"), &s("t"), &s("d"), false, 0).unwrap();
    q.mark_terminal(id, true, None);
    q.enqueue(&s("r"), &s("t"), &s("d"), true, 5).unwrap();
    // id is superseded now.
    assert!(wait_poll(&q, &s("w"), &id.to_string()).is_none());
    let resp = wait_timeout_reply(&s("w"), &id.to_string());
    assert_eq!(resp.id, "w");
    let msg = expect_error(&resp, ErrorCode::Timeout);
    assert_eq!(msg, format!("Timeout waiting for sync {id}"));
}

#[test]
fn version_mismatch_rejected_before_dispatch() {
    // Any request at the wrong version gets IncompatibleVersion and the
    // command never runs.
    let mut q = SyncQueue::new();
    let req = request(
        "7",
        PROTOCOL_VERSION + 1,
        Command::EnqueueSync { directory: s("d"), force: false },
    );
    let d = process_request(&mut q, Ok(req), 0, 0);
    match d {
        Dispatched::Reply(r) => {
            assert_eq!(r.id, "7");
            let msg = expect_error(&r, ErrorCode::IncompatibleVersion);
            assert_eq!(msg, "Protocol version mismatch: expected 1, got 2");
        }
        _ => panic!("expected a plain reply"),
    }
    // The queue was never touched: nothing to wait on.
    assert!(q.get(1).is_none());
    assert_eq!(q.list_queues(0).len(), 0);
}

#[test]
fn malformed_line_invalid_request() {
    let mut q = SyncQueue::new();
    let d = process_request(&mut q, Err(s("expected value at line 1")), 0, 0);
    match d {
        Dispatched::Reply(r) => {
            assert_eq!(r.id, "");
            let msg = expect_error(&r, ErrorCode::InvalidRequest);
            assert_eq!(msg, "expected value at line 1");
        }
        _ => panic!("expected a plain reply"),
    }
}

#[test]
fn oversized_line_then_valid_request() {
    // An oversized line is rejected without parsing; the next well-formed
    // request on the same connection still succeeds.
    assert!(line_fits(MAX_MESSAGE_SIZE));
    assert!(!line_fits(MAX_MESSAGE_SIZE + 1));
    let big = oversize_response();
    assert_eq!(big.id, "");
    let msg = expect_error(&big, ErrorCode::InvalidRequest);
    assert_eq!(msg, "Message too large");

    let mut q = SyncQueue::new();
    let d = process_request(&mut q, Ok(request("2", PROTOCOL_VERSION, Command::Ping)), 0, 0);
    match d {
        Dispatched::Reply(r) => {
            assert_eq!(r.id, "2");
            match r.outcome.unwrap() {
                ResponsePayload::Ping(p) => assert_eq!(p.daemon_version, DAEMON_VERSION),
                _ => panic!("expected a ping payload"),
            }
        }
        _ => panic!("expected a plain reply"),
    }
}

#[test]
fn dispatch_enqueue_starts_job() {
    let mut q = SyncQueue::new();
    let req = request("9", PROTOCOL_VERSION, Command::EnqueueSync { directory: s("d"), force: false });
    let d = handle_command(&req, &mut q, 123, 0);
    match d {
        Dispatched::ReplyAndStart { response, sync_id, repo_root, tool, directory } => {
            assert_eq!(sync_id, 1);
            assert_eq!(repo_root, "/r");
            assert_eq!(tool, "decisions");
            assert_eq!(directory, "d");
            match response.outcome.unwrap() {
                ResponsePayload::EnqueueSync(p) => {
                    assert_eq!(p.sync_id, "1");
                    assert_eq!(p.queued_at_ms, 123);
                }
                _ => panic!("expected an enqueue payload"),
            }
        }
        _ => panic!("expected an admission"),
    }
    // The duplicate enqueue replies without starting anything, echoing the
    // original admission instant.
    let req2 = request("10", PROTOCOL_VERSION, Command::EnqueueSync { directory: s("d"), force: false });
    match handle_command(&req2, &mut q, 999, 0) {
        Dispatched::Reply(r) => match r.outcome.unwrap() {
            ResponsePayload::EnqueueSync(p) => {
                assert_eq!(p.sync_id, "1");
                assert_eq!(p.queued_at_ms, 123);
            }
            _ => panic!("expected an enqueue payload"),
        },
        _ => panic!("expected a plain reply"),
    }
}

#[test]
fn dispatch_wait_and_status_and_shutdown() {
    let mut q = SyncQueue::new();
    let wait = request(
        "w",
        PROTOCOL_VERSION,
        Command::WaitSync { sync_id: s("5"), timeout_ms: 5000 },
    );
    match handle_command(&wait, &mut q, 0, 0) {
        Dispatched::AwaitJob { request_id, sync_id, timeout_ms } => {
            assert_eq!(request_id, "w");
            assert_eq!(sync_id, "5");
            assert_eq!(timeout_ms, 5000);
        }
        _ => panic!("expected an await instruction"),
    }

    q.enqueue(&s("/r"), &s("decisions"), &s("d"), false, 40).unwrap();
    let status = request("st", PROTOCOL_VERSION, Command::Status);
    match handle_command(&status, &mut q, 100, 777) {
        Dispatched::Reply(r) => match r.outcome.unwrap() {
            ResponsePayload::Status(sr) => {
                assert_eq!(sr.uptime_ms, 777);
                assert_eq!(sr.queues.len(), 1);
                assert_eq!(sr.queues[0].repo_root, "/r");
                assert_eq!(sr.queues[0].age_ms, 60);
            }
            _ => panic!("expected a status payload"),
        },
        _ => panic!("expected a plain reply"),
    }

    let shutdown = request("sh", PROTOCOL_VERSION, Command::Shutdown { reason: s("bye") });
    match handle_command(&shutdown, &mut q, 0, 0) {
        Dispatched::ReplyAndShutdown(r) => {
            assert_eq!(r.id, "sh");
            assert!(matches!(r.outcome, Ok(ResponsePayload::Shutdown(_))));
        }
        _ => panic!("expected a shutdown reply"),
    }
}

#[test]
fn error_code_wire_spellings() {
    assert_eq!(ErrorCode::InvalidRequest.wire_str(), "invalid_request");
    assert_eq!(ErrorCode::IncompatibleVersion.wire_str(), "incompatible_version");
    assert_eq!(ErrorCode::Timeout.wire_str(), "timeout");
    assert_eq!(ErrorCode::InternalError.wire_str(), "internal_error");
}
