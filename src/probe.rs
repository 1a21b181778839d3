//! Liveness of the local model server: where it is asked and how an answer
//! is read.

use vstd::prelude::*;

verus! {

/// Endpoint that a running model server answers.
pub const OLLAMA_TAGS_URL: &'static str = "http://localhost:11434/api/tags";

/// Bound on the whole request, in seconds.
pub const PROBE_TIMEOUT_SECS: u64 = 5;

/// An HTTP status in the success class, `200..=299`.
pub open spec fn is_success_status(code: u16) -> bool {
    200 <= code && code <= 299
}

/// Reads the probe's answer: `status` is the HTTP status received, or `None`
/// when the request failed in transport (refused, timed out, malformed).
/// The server counts as up exactly when a success status came back.
pub fn service_is_up(status: Option<u16>) -> (up: bool)
    ensures
        up == (status matches Some(code) && is_success_status(code)),
{
    match status {
        Some(code) => 200 <= code && code <= 299,
        None => false,
    }
}

} // verus!
