//! A dual-feed edge-detection engine for a reference asset traded against a
//! binary-outcome market.
//!
//! Prices are fixed-point integers: a price of `p` ticks stands for
//! `p / PRICE_SCALE` units of quote currency. The engine keeps the latest
//! observation from each feed, validates per-feed sequence numbers, tracks
//! connectivity and staleness, and fires a trade intent when the reference
//! price moves by more than a configured relative threshold while the engine
//! is streaming and outside the trigger cooldown window.

use vstd::prelude::*;

pub mod backoff;
pub mod decode;
pub mod edge;
pub mod engine;
pub mod laws;
pub mod types;

verus! {

/// Number of fixed-point ticks per whole unit of price.
pub const PRICE_SCALE: u64 = 10000;

} // verus!
