//! The wall clock, behind one trusted call.

use vstd::prelude::*;

verus! {

/// Relies on `chrono::Utc::now`: the current wall-clock time as Unix
/// milliseconds (clamped to zero before the epoch). The value depends on
/// the clock, so nothing is promised about it.
#[verifier::external_body]
pub fn now_unix_ms() -> (r: u64)
{
    u64::try_from(chrono::Utc::now().timestamp_millis()).unwrap_or(0)
}

} // verus!
