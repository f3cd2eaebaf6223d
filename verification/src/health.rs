use vstd::prelude::*;
use vstd::string::*;
use crate::numfmt::{spec_dec, u64_to_string};

verus! {

/// The poll interval, in milliseconds, both boot and restart use.
pub const DEFAULT_POLL_INTERVAL_MS: u64 = 250;

/// The overall readiness budget, in milliseconds, both boot and restart use.
pub const DEFAULT_POLL_TIMEOUT_MS: u64 = 15000;

/// The connect budget, in milliseconds, of one individual probe.
pub const PROBE_CONNECT_TIMEOUT_MS: u64 = 2000;

/// The total budget, in milliseconds, of one individual probe. This bounds a
/// single request; it is independent of the overall poll budget, and the two
/// must never be conflated — the overall budget takes precedence.
pub const PROBE_REQUEST_TIMEOUT_MS: u64 = 3000;

/// The error a poll run ends with once its overall budget is spent: it names
/// the elapsed budget in milliseconds.
pub open spec fn spec_health_timeout_msg(timeout_ms: int) -> Seq<char> {
    "Backend health check timed out after "@ + spec_dec(timeout_ms) + "ms"@
}

/// Decides, before each probe, whether the overall budget of a poll run is
/// spent: once `elapsed_ms` passes `timeout_ms` the run fails with the
/// timeout error, and not a moment before.
pub fn poll_deadline_exceeded(elapsed_ms: u64, timeout_ms: u64) -> (r: Option<String>)
    ensures
        (elapsed_ms > timeout_ms) == (r is Some),
        r matches Some(m) ==> m@ == spec_health_timeout_msg(timeout_ms as int),
{
    if elapsed_ms > timeout_ms {
        let mut m = String::from_str("Backend health check timed out after ");
        m.append(u64_to_string(timeout_ms).as_str());
        m.append("ms");
        Some(m)
    } else {
        None
    }
}

/// Decides whether one probe's outcome ends the wait: only a success status
/// does. Any other status, and a connection error (`None`) — expected while
/// the backend is still starting — both mean sleeping one fixed interval and
/// probing again; there is no backoff growth in this loop.
pub fn probe_ready(status: Option<u16>) -> (r: bool)
    ensures
        r == (status matches Some(c) && 200 <= c && c < 300),
{
    match status {
        Some(c) => 200 <= c && c < 300,
        None => false,
    }
}

} // verus!
