//! Wire contract of the daemon: request/response envelopes, the command
//! set, the protocol version gate, the framing limit, and the closed error
//! taxonomy.
//!
//! Framing is one JSON object per line; this module owns everything about a
//! message except the JSON text itself, which the unverified rim converts
//! to and from these types.

use vstd::prelude::*;

verus! {

/// The single protocol version this daemon accepts.
pub const PROTOCOL_VERSION: u64 = 1;

/// Maximum size in bytes of one framed line; longer lines are rejected
/// before any parsing.
pub const MAX_MESSAGE_SIZE: usize = 1024 * 1024;

/// Version string reported by `Ping`.
pub const DAEMON_VERSION: &'static str = "1.2.0";

/// A decoded request envelope.
pub struct Request {
    /// Caller-chosen correlation token, echoed in the response.
    pub id: String,
    /// Protocol version the caller speaks; must equal `PROTOCOL_VERSION`.
    pub version: u64,
    /// Name of the calling tool; part of the queue key.
    pub tool: String,
    /// Repository root the request is about; part of the queue key.
    pub repo_root: String,
    /// The command to execute.
    pub command: Command,
}

/// The command set of the protocol.
pub enum Command {
    Ping,
    EnqueueSync { directory: String, force: bool },
    WaitSync { sync_id: String, timeout_ms: u64 },
    Status,
    Shutdown { reason: String },
}

/// The closed set of error codes a response can carry.
#[derive(Clone, Copy, PartialEq, Eq, Structural, Debug)]
pub enum ErrorCode {
    InvalidRequest,
    IncompatibleVersion,
    Timeout,
    InternalError,
}

impl ErrorCode {
    /// The wire spelling of each error code.
    pub open spec fn spec_wire_str(self) -> Seq<char> {
        match self {
            ErrorCode::InvalidRequest => "invalid_request"@,
            ErrorCode::IncompatibleVersion => "incompatible_version"@,
            ErrorCode::Timeout => "timeout"@,
            ErrorCode::InternalError => "internal_error"@,
        }
    }

    /// Renders the code as it appears on the wire.
    pub fn wire_str(&self) -> (r: &'static str)
        ensures
            r@ == self.spec_wire_str(),
    {
        match self {
            ErrorCode::InvalidRequest => "invalid_request",
            ErrorCode::IncompatibleVersion => "incompatible_version",
            ErrorCode::Timeout => "timeout",
            ErrorCode::InternalError => "internal_error",
        }
    }
}

/// An error outcome: a code from the closed taxonomy and a message.
#[derive(Debug)]
pub struct ErrorInfo {
    pub code: ErrorCode,
    pub message: String,
}

/// Success payload of `Ping`.
pub struct PingResponse {
    pub daemon_version: String,
}

/// Success payload of `EnqueueSync`.
pub struct EnqueueSyncResponse {
    /// Identifier of the admitted (or deduplicated) job, in decimal.
    pub sync_id: String,
    /// When the job was queued, in milliseconds since daemon start.
    pub queued_at_ms: u64,
}

/// Success payload of `WaitSync`.
pub struct WaitSyncResponse {
    pub sync_id: String,
    pub state: crate::daemon::queue::JobState,
    pub stats: Option<crate::daemon::queue::SyncStats>,
}

/// Success payload of `Status`.
pub struct StatusResponse {
    pub queues: Vec<crate::daemon::queue::QueueEntry>,
    pub uptime_ms: u64,
}

/// Success payload of `Shutdown`.
pub struct ShutdownResponse {}

/// The success payloads, one variant per command.
pub enum ResponsePayload {
    Ping(PingResponse),
    EnqueueSync(EnqueueSyncResponse),
    WaitSync(WaitSyncResponse),
    Status(StatusResponse),
    Shutdown(ShutdownResponse),
}

/// A response envelope: the echoed correlation id and either a success
/// payload or an error.
pub struct Response {
    pub id: String,
    pub outcome: Result<ResponsePayload, ErrorInfo>,
}

/// Holds when `r` is an error response with the given id view, code, and
/// message view.
pub open spec fn is_error_response(
    r: Response,
    id: Seq<char>,
    code: ErrorCode,
    message: Seq<char>,
) -> bool {
    &&& r.id@ == id
    &&& match r.outcome {
        Err(e) => e.code == code && e.message@ == message,
        Ok(_) => false,
    }
}

impl Response {
    /// Builds a success response echoing `id`.
    pub fn ok(id: &String, payload: ResponsePayload) -> (r: Response)
        ensures
            r.id@ == id@,
            r.outcome == Result::<ResponsePayload, ErrorInfo>::Ok(payload),
    {
        Response { id: id.clone(), outcome: Ok(payload) }
    }

    /// Builds an error response echoing `id`.
    pub fn error(id: &String, code: ErrorCode, message: String) -> (r: Response)
        ensures
            is_error_response(r, id@, code, message@),
    {
        Response { id: id.clone(), outcome: Err(ErrorInfo { code, message }) }
    }
}

/// Whether a line of `len` bytes fits inside the framing limit.
pub fn line_fits(len: usize) -> (r: bool)
    ensures
        r == (len <= MAX_MESSAGE_SIZE),
{
    len <= MAX_MESSAGE_SIZE
}

/// The response sent for a line that exceeds the framing limit: the line is
/// never parsed, so the correlation id is empty.
pub fn oversize_response() -> (r: Response)
    ensures
        is_error_response(r, ""@, ErrorCode::InvalidRequest, "Message too large"@),
{
    let id = String::new();
    proof {
        reveal_strlit("");
        assert(id@ =~= ""@);
    }
    Response::error(&id, ErrorCode::InvalidRequest, "Message too large".to_owned())
}

} // verus!
