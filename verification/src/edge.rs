//! The edge detector: pure functions deciding whether a reference-price move
//! justifies a trade.

use vstd::prelude::*;
use crate::types::Direction;

verus! {

/// Absolute difference of two prices, as a mathematical integer.
pub open spec fn abs_diff(a: u64, b: u64) -> int {
    if a >= b {
        a - b
    } else {
        b - a
    }
}

/// The trigger test on prices: the relative change from `before` to `after`
/// strictly exceeds the threshold `num / den` in magnitude, that is
/// `|after - before| / before > num / den`, stated without division as
/// `|after - before| * den > num * before`.
pub open spec fn spec_exceeds_threshold(before: u64, after: u64, num: u64, den: u64) -> bool {
    abs_diff(after, before) * den > num * before
}

/// A change exactly equal to the threshold does not trigger (the inequality
/// is strict).
pub fn exceeds_threshold(before: u64, after: u64, num: u64, den: u64) -> (r: bool)
    ensures
        r == spec_exceeds_threshold(before, after, num, den),
{
    let diff: u64 = if after >= before {
        after - before
    } else {
        before - after
    };
    proof {
        assert((diff as int) * (den as int) <= 0xffff_ffff_ffff_ffff * 0xffff_ffff_ffff_ffff)
            by (nonlinear_arith)
            requires
                diff <= 0xffff_ffff_ffff_ffffu64,
                den <= 0xffff_ffff_ffff_ffffu64,
        ;
        assert((num as int) * (before as int) <= 0xffff_ffff_ffff_ffff * 0xffff_ffff_ffff_ffff)
            by (nonlinear_arith)
            requires
                num <= 0xffff_ffff_ffff_ffffu64,
                before <= 0xffff_ffff_ffff_ffffu64,
        ;
    }
    (diff as u128) * (den as u128) > (num as u128) * (before as u128)
}

/// The cooldown test: either no trigger has fired yet, or strictly more than
/// `cooldown` has elapsed since the last one.
pub open spec fn spec_cooldown_elapsed(last: Option<u64>, now: u64, cooldown: u64) -> bool {
    match last {
        None => true,
        Some(t) => now >= t && now - t > cooldown,
    }
}

pub fn cooldown_elapsed(last: Option<u64>, now: u64, cooldown: u64) -> (r: bool)
    ensures
        r == spec_cooldown_elapsed(last, now, cooldown),
{
    match last {
        None => true,
        Some(t) => now >= t && now - t > cooldown,
    }
}

/// Trade direction for a reference-price move: up means buy the upward
/// outcome, anything else means the downward one.
pub open spec fn spec_direction(before: u64, after: u64) -> Direction {
    if after > before {
        Direction::Long
    } else {
        Direction::Short
    }
}

pub fn direction_of(before: u64, after: u64) -> (d: Direction)
    ensures
        d == spec_direction(before, after),
{
    if after > before {
        Direction::Long
    } else {
        Direction::Short
    }
}

/// The freshness test: an observation taken at `observed_at` is still fresh
/// at `now` when its age does not exceed `bound`.
pub open spec fn spec_fresh(observed_at: u64, now: u64, bound: u64) -> bool {
    now <= observed_at + bound
}

pub fn is_fresh(observed_at: u64, now: u64, bound: u64) -> (r: bool)
    ensures
        r == spec_fresh(observed_at, now, bound),
{
    now < observed_at || now - observed_at <= bound
}

} // verus!
