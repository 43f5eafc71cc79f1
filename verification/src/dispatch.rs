//! The dispatcher's fan-out: after validation, every worker receives its own
//! clone of the immutable search parameters and a distinct 0-indexed thread
//! identifier. Thread creation itself is the caller's concern; what is
//! dispatched to each worker is pinned down here.
use vstd::prelude::*;
use crate::config::Config;
use crate::policy::Placement;

verus! {

/// Everything one worker needs for its scan: its identifier and its own
/// copy of the shared, immutable search parameters.
pub struct WorkerParams {
    /// 0-indexed identifier of the worker, distinct per worker.
    pub thread_id: usize,
    /// The pattern the match policy tests against.
    pub pattern: String,
    /// Where the pattern must appear in the address.
    pub placement: Placement,
    /// Index of the mnemonic wordlist used to encode a found key.
    pub language: usize,
    /// Whether the worker stops after its first match.
    pub stop_after_match: bool,
}

/// Fans a validated configuration out to exactly `threads` workers: the
/// result holds one parameter set per worker, 0-indexed in order, and every
/// worker sees the same pattern, placement, language and stop flag.
pub fn worker_params(config: &Config, threads: usize) -> (r: Vec<WorkerParams>)
    ensures
        r@.len() == threads,
        forall|i: int|
            0 <= i < threads ==> {
                &&& (#[trigger] r@[i]).thread_id == i
                &&& r@[i].pattern@ == config.spec_effective_pattern()
                &&& r@[i].placement == config.placement
                &&& r@[i].language == config.language
                &&& r@[i].stop_after_match == config.stop_after_match
            },
{
    let pattern = config.effective_pattern();
    let mut r: Vec<WorkerParams> = Vec::new();
    let mut i: usize = 0;
    while i < threads
        invariant
            i <= threads,
            pattern@ == config.spec_effective_pattern(),
            r@.len() == i,
            forall|k: int|
                0 <= k < i ==> {
                    &&& (#[trigger] r@[k]).thread_id == k
                    &&& r@[k].pattern@ == config.spec_effective_pattern()
                    &&& r@[k].placement == config.placement
                    &&& r@[k].language == config.language
                    &&& r@[k].stop_after_match == config.stop_after_match
                },
        decreases threads - i,
    {
        r.push(
            WorkerParams {
                thread_id: i,
                pattern: pattern.clone(),
                placement: config.placement,
                language: config.language,
                stop_after_match: config.stop_after_match,
            },
        );
        i = i + 1;
    }
    r
}

} // verus!
