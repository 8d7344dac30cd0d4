//! Reconnect backoff: the capped exponential bound on the delay before the
//! nth reconnect attempt, with full jitter. The caller draws the randomness;
//! this module only computes with it, so the delay policy itself is verified.

use vstd::prelude::*;

verus! {

/// The bound on the nth reconnect delay: the base delay doubled once per
/// attempt, never above the cap.
pub open spec fn spec_backoff_bound(base: u64, attempt: nat, cap: u64) -> u64
    decreases attempt,
{
    if attempt == 0 {
        if base >= cap {
            cap
        } else {
            base
        }
    } else {
        let prev = spec_backoff_bound(base, (attempt - 1) as nat, cap);
        if prev > cap / 2 {
            cap
        } else {
            (2 * prev) as u64
        }
    }
}

/// The backoff bound never exceeds the cap.
pub proof fn lemma_backoff_bound_capped(base: u64, attempt: nat, cap: u64)
    ensures
        spec_backoff_bound(base, attempt, cap) <= cap,
    decreases attempt,
{
    if attempt == 0 {
    } else {
        lemma_backoff_bound_capped(base, (attempt - 1) as nat, cap);
    }
}

/// The delay before reconnect attempt `attempt`: a full-jitter draw, uniform
/// over `0 ..= bound` when `entropy` is uniform, and never above the cap.
pub fn backoff_delay(base: u64, attempt: u32, cap: u64, entropy: u64) -> (d: u64)
    ensures
        d <= spec_backoff_bound(base, attempt as nat, cap),
        d <= cap,
        spec_backoff_bound(base, attempt as nat, cap) < u64::MAX ==> d == (entropy as int) % (
        spec_backoff_bound(base, attempt as nat, cap) as int + 1),
{
    proof {
        lemma_backoff_bound_capped(base, attempt as nat, cap);
    }
    let mut bound: u64 = if base >= cap {
        cap
    } else {
        base
    };
    let mut k: u32 = 0;
    while k < attempt
        invariant
            k <= attempt,
            bound == spec_backoff_bound(base, k as nat, cap),
            bound <= cap,
        decreases attempt - k,
    {
        bound = if bound > cap / 2 {
            cap
        } else {
            2 * bound
        };
        k += 1;
    }
    if bound == 0xffff_ffff_ffff_ffff {
        entropy
    } else {
        entropy % (bound + 1)
    }
}

} // verus!
