//! What one reachability probe yields.
use vstd::prelude::*;

verus! {

/// The sample that a probe's summary stands for: the mean round trip in
/// milliseconds when every request was answered, `None` ("no response")
/// when any was lost or none was sent.
pub open spec fn summary_sample(received: u32, transmitted: u32, total_ms: u64) -> Option<u64> {
    if received != transmitted || transmitted == 0 {
        None
    } else {
        Some((total_ms / (transmitted as u64)) as u64)
    }
}

/// Turns the summary of a probe (requests answered and sent, total round-trip
/// time in milliseconds) into a latency sample.
pub fn sample_from_summary(received: u32, transmitted: u32, total_ms: u64) -> (r: Option<u64>)
    ensures
        r == summary_sample(received, transmitted, total_ms),
{
    if received != transmitted || transmitted == 0 {
        None
    } else {
        Some(total_ms / (transmitted as u64))
    }
}

/// How long a probe waits for its answer: five times the unhealthy-latency threshold.
pub fn probe_timeout_ms(threshold_ms: u64) -> (r: u64)
    requires
        threshold_ms <= u64::MAX / 5,
    ensures
        r == 5 * threshold_ms,
{
    threshold_ms * 5
}

} // verus!
