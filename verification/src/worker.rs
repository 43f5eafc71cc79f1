//! The worker: the per-thread generate-encode-test-report loop, written over
//! the candidate addresses the keypair source and address encoder hand in.
//! Every attempt tests one encoded address against the search pattern and
//! bumps the shared telemetry counter exactly once.
use vstd::prelude::*;
use crate::policy::{Placement, spec_matches, matches_placement};
use crate::rate::{RateTracker, spec_inc, spec_add};

verus! {

/// What a worker reports when an address matches: where it was found, the
/// address itself, the recoverable secret, and the mnemonic word sequence —
/// absent when mnemonic encoding failed, which degrades the report but never
/// stops the worker.
pub struct MatchResult {
    /// 0-indexed identifier of the worker that found the match.
    pub thread_id: usize,
    /// The encoded address that matched.
    pub address: String,
    /// The private key, in hexadecimal text form.
    pub key_hex: String,
    /// The mnemonic word sequence of the key, or `None` when the mnemonic
    /// encoder failed (an unsupported language index).
    pub words: Option<Vec<String>>,
}

/// One worker iteration after generation and encoding: tests the candidate
/// address against the pattern and records the attempt in the shared
/// telemetry, match or not.
pub fn worker_attempt(
    placement: Placement,
    address: &str,
    pattern: &str,
    tracker: &mut RateTracker,
) -> (matched: bool)
    ensures
        matched == spec_matches(placement, address@, pattern@),
        final(tracker).count == spec_inc(old(tracker).count),
{
    let matched = matches_placement(placement, address, pattern);
    tracker.increment();
    matched
}

/// The reporting step: assembles a worker's report from the matched address,
/// the key material, and the mnemonic encoder's outcome. A failed encoding
/// (`None`) still yields a full report with the words marked absent.
pub fn build_match_result(
    thread_id: usize,
    address: String,
    key_hex: String,
    words: Option<Vec<String>>,
) -> (r: MatchResult)
    ensures
        r.thread_id == thread_id,
        r.address == address,
        r.key_hex == key_hex,
        r.words == words,
{
    MatchResult { thread_id, address, key_hex, words }
}

/// Runs one worker over a fixed sequence of candidate addresses without
/// stopping at a match, as the default keep-scanning worker does: every
/// candidate is tested and counted, and the decisions come back in order.
/// With a fixed injected candidate sequence the decision sequence is the
/// same on every run.
pub fn match_decisions(
    addresses: &Vec<String>,
    placement: Placement,
    pattern: &str,
    tracker: &mut RateTracker,
) -> (r: Vec<bool>)
    ensures
        r@.len() == addresses@.len(),
        forall|j: int|
            0 <= j < addresses@.len() ==> r@[j] == spec_matches(
                placement,
                addresses@[j]@,
                pattern@,
            ),
        final(tracker).count == spec_add(old(tracker).count, addresses@.len()),
{
    let n = addresses.len();
    let mut r: Vec<bool> = Vec::new();
    let mut i: usize = 0;
    while i < n
        invariant
            n == addresses@.len(),
            i <= n,
            r@.len() == i,
            forall|j: int|
                0 <= j < i ==> r@[j] == spec_matches(placement, addresses@[j]@, pattern@),
            tracker.count == spec_add(old(tracker).count, i as nat),
        decreases n - i,
    {
        let matched = worker_attempt(placement, addresses[i].as_str(), pattern, tracker);
        r.push(matched);
        i = i + 1;
    }
    r
}

/// The outcome a worker's scan of `addrs` must have: `Some(i)` exactly when
/// `i` is the first candidate matching the pattern under the placement, and
/// `None` exactly when no candidate matches.
pub open spec fn first_match_outcome(
    addrs: Seq<String>,
    placement: Placement,
    pat: Seq<char>,
    r: Option<usize>,
) -> bool {
    match r {
        Some(i) => {
            &&& i < addrs.len()
            &&& spec_matches(placement, addrs[i as int]@, pat)
            &&& (forall|k: int| 0 <= k < i ==> !spec_matches(placement, addrs[k]@, pat))
        },
        None => forall|k: int| 0 <= k < addrs.len() ==> !spec_matches(placement, addrs[k]@, pat),
    }
}

/// Determinism of the search over an injected candidate sequence: two scans
/// of the same candidates with the same placement and pattern can only have
/// the same outcome, so a run is fully reproducible from its inputs.
pub proof fn lemma_first_match_unique(
    addrs: Seq<String>,
    placement: Placement,
    pat: Seq<char>,
    r1: Option<usize>,
    r2: Option<usize>,
)
    requires
        first_match_outcome(addrs, placement, pat, r1),
        first_match_outcome(addrs, placement, pat, r2),
    ensures
        r1 == r2,
{
    match (r1, r2) {
        (Some(i1), Some(i2)) => {
            if i1 < i2 {
                assert(!spec_matches(placement, addrs[i1 as int]@, pat));
            }
            if i2 < i1 {
                assert(!spec_matches(placement, addrs[i2 as int]@, pat));
            }
        },
        (Some(i1), None) => {
            assert(!spec_matches(placement, addrs[i1 as int]@, pat));
        },
        (None, Some(i2)) => {
            assert(!spec_matches(placement, addrs[i2 as int]@, pat));
        },
        (None, None) => {},
    }
}

/// Runs one worker over a fixed sequence of candidate addresses, as the
/// live loop does over the keypair source's output: each candidate in turn
/// is one attempt, and the search stops at the first match. Returns the
/// index of the first matching candidate, or `None` when none matches; the
/// telemetry counter advances by exactly the number of attempts made. The
/// result is a function of the arguments alone, so a fixed injected
/// candidate sequence reproduces the same decisions on every run.
pub fn search_scripted(
    addresses: &Vec<String>,
    placement: Placement,
    pattern: &str,
    tracker: &mut RateTracker,
) -> (r: Option<usize>)
    ensures
        first_match_outcome(addresses@, placement, pattern@, r),
        final(tracker).count == spec_add(
            old(tracker).count,
            match r {
                Some(i) => i as nat + 1,
                None => addresses@.len(),
            },
        ),
{
    let n = addresses.len();
    let mut i: usize = 0;
    while i < n
        invariant
            n == addresses@.len(),
            i <= n,
            forall|k: int| 0 <= k < i ==> !spec_matches(placement, addresses@[k]@, pattern@),
            tracker.count == spec_add(old(tracker).count, i as nat),
        decreases n - i,
    {
        if worker_attempt(placement, addresses[i].as_str(), pattern, tracker) {
            return Some(i);
        }
        i = i + 1;
    }
    None
}

} // verus!
