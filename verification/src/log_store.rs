//! Statistics of the request log.

use vstd::prelude::*;

verus! {

/// Totals over the stored request logs: the number of requests, the tokens
/// of prompts and completions, the mean latency, and the number of answers
/// with status 400 or above.
#[derive(Debug)]
pub struct LogStats {
    pub total_requests: u64,
    pub total_tokens: u64,
    pub avg_latency_ms: u64,
    pub error_count: u64,
}

} // verus!
