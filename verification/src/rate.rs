//! Shared throughput telemetry: a counter that every worker bumps once per
//! attempt, and a periodic snapshot that turns the accumulated count and the
//! elapsed time into an attempts-per-second rate.
use vstd::prelude::*;

verus! {

/// One more attempt, saturating at the counter's maximum: the count is a
/// throughput gauge, and an approximate total is acceptable.
pub open spec fn spec_inc(c: u64) -> u64 {
    if c == u64::MAX {
        u64::MAX
    } else {
        (c + 1) as u64
    }
}

/// `c` advanced by `n` attempts, saturating at the counter's maximum.
pub open spec fn spec_add(c: u64, n: nat) -> u64 {
    if c + n >= u64::MAX {
        u64::MAX
    } else {
        (c + n) as u64
    }
}

/// The attempts-per-second rate that `k` attempts over `t_ms` milliseconds
/// amount to: zero when either is zero (never a division by zero), the
/// integer quotient `k * 1000 / t_ms` otherwise, saturating at the
/// counter's maximum.
pub open spec fn spec_rate(k: u64, t_ms: u64) -> u64 {
    if k == 0 || t_ms == 0 {
        0
    } else if k * 1000 / (t_ms as int) >= u64::MAX {
        u64::MAX
    } else {
        (k * 1000 / (t_ms as int)) as u64
    }
}

/// The attempt counter shared by all workers. Each worker bumps it once per
/// generate-encode-test iteration; a single periodic task drains it to
/// compute a rate.
pub struct RateTracker {
    /// Attempts counted since the last snapshot.
    pub count: u64,
}

impl RateTracker {
    /// A tracker that has seen no attempts yet.
    pub fn new() -> (r: RateTracker)
        ensures
            r.count == 0,
    {
        RateTracker { count: 0 }
    }

    /// Records one attempt.
    pub fn increment(&mut self)
        ensures
            final(self).count == spec_inc(old(self).count),
    {
        if self.count < u64::MAX {
            self.count = self.count + 1;
        }
    }

    /// Drains the counter: returns the attempts seen since the last drain
    /// and resets the count to zero.
    pub fn take_count(&mut self) -> (k: u64)
        ensures
            k == old(self).count,
            final(self).count == 0,
    {
        let k = self.count;
        self.count = 0;
        k
    }

    /// One periodic snapshot: drains the counter and reports the
    /// attempts-per-second rate over the `elapsed_ms` milliseconds since the
    /// previous snapshot. A snapshot with no attempts or no measured time
    /// reports zero rather than a division artifact.
    pub fn snapshot(&mut self, elapsed_ms: u64) -> (rate: u64)
        ensures
            rate == spec_rate(old(self).count, elapsed_ms),
            final(self).count == 0,
    {
        let k = self.take_count();
        rate_per_second(k, elapsed_ms)
    }
}

/// The attempts-per-second rate for `k` attempts over `t_ms` milliseconds,
/// with the zero edge cases pinned to zero.
pub fn rate_per_second(k: u64, t_ms: u64) -> (rate: u64)
    ensures
        rate == spec_rate(k, t_ms),
{
    if k == 0 || t_ms == 0 {
        return 0;
    }
    let scaled = (k as u128) * 1000 / (t_ms as u128);
    if scaled >= u64::MAX as u128 {
        u64::MAX
    } else {
        scaled as u64
    }
}

} // verus!
