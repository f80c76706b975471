//! The sync-coordination daemon: wire protocol types, the deduplicated job
//! queue, the command dispatcher, and socket-path expansion.

pub mod dispatch;
pub mod paths;
pub mod protocol;
pub mod queue;
