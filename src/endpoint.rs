//! The outbound calls both filters make.
use vstd::prelude::*;

verus! {

/// Where and how a filter sends its outbound call: to the upstream `cluster`,
/// with headers `:method`, `:path`, `:authority` and `content-type`, the
/// request body, no trailers, and a timeout.
pub struct Endpoint {
    pub cluster: String,
    pub method: String,
    pub content_type: String,
    pub path: String,
    pub authority: String,
    pub timeout_ms: u64,
}

/// Timeout of every outbound call, in milliseconds.
pub const CALLOUT_TIMEOUT_MS: u64 = 5000;

} // verus!
