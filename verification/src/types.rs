//! Data model: observations, trade intents, engine modes and configuration.
//!
//! Prices and order sizes are fixed-point integers; a price of `p` ticks
//! stands for `p / PRICE_SCALE` units of quote currency. The relative-change
//! threshold is the rational `threshold_num / threshold_den`, so a default of
//! two parts in a thousand is `threshold_num == 2, threshold_den == 1000`.
//! Timestamps are monotonic milliseconds.

use vstd::prelude::*;

verus! {

/// Which feed an observation came from.
#[derive(Clone, Copy, Debug, PartialEq, Eq, Structural)]
pub enum Source {
    Reference,
    PredictionMarket,
}

/// Side of the binary-outcome market to take.
#[derive(Clone, Copy, Debug, PartialEq, Eq, Structural)]
pub enum Direction {
    Long,
    Short,
}

/// One decoded message from a feed: a positive fixed-point price, the
/// monotonic time it was observed, and the feed's own sequence number,
/// which must be strictly increasing per source.
#[derive(Clone, Copy, Debug, PartialEq, Eq, Structural)]
pub struct PriceObservation {
    pub source: Source,
    pub value: u64,
    pub observed_at: u64,
    pub sequence: u64,
}

/// The evidence justifying a trigger: the reference price before and after
/// the move. The relative change is `(after - before) / before`.
#[derive(Clone, Copy, Debug, PartialEq, Eq, Structural)]
pub struct EdgeSignal {
    pub reference_price_before: u64,
    pub reference_price_after: u64,
}

/// An execution request handed to the gateway; never stored beyond the
/// dispatch call, except as the audit copy in `open_position`.
#[derive(Clone, Copy, Debug, PartialEq, Eq, Structural)]
pub struct TradeIntent {
    pub direction: Direction,
    pub size: u64,
    pub reason: EdgeSignal,
    pub triggered_at: u64,
}

/// Orchestration mode, derived from connectivity and freshness.
#[derive(Clone, Copy, Debug, PartialEq, Eq, Structural)]
pub enum Mode {
    /// One or both feeds have yet to deliver a first observation.
    Connecting,
    /// Both feeds live and fresh: triggers may fire.
    Streaming,
    /// A feed is disconnected or its last observation is stale: triggers
    /// are suppressed.
    Degraded,
    /// Terminal: a shutdown signal was received.
    ShuttingDown,
}

/// Why an observation was discarded without changing the engine.
#[derive(Clone, Copy, Debug, PartialEq, Eq, Structural)]
pub enum RejectReason {
    /// The engine is shutting down and accepts no further messages.
    ShuttingDown,
    /// The observation's price was zero; prices must be positive.
    NonPositivePrice,
    /// The sequence number did not strictly increase for its source.
    StaleSequence,
}

/// Outcome of feeding one observation to the engine.
#[derive(Clone, Copy, Debug, PartialEq, Eq)]
pub enum StepResult {
    /// The observation was applied; a trigger may have fired.
    Applied(Option<TradeIntent>),
    /// The observation was discarded and the engine is unchanged.
    Rejected(RejectReason),
}

/// Policy knobs consumed by the engine.
#[derive(Clone, Copy, Debug, PartialEq, Eq, Structural)]
pub struct Config {
    /// Numerator of the relative-change trigger threshold.
    pub threshold_num: u64,
    /// Denominator of the relative-change trigger threshold; positive.
    pub threshold_den: u64,
    /// Minimum time between consecutive triggers, in milliseconds.
    pub cooldown_ms: u64,
    /// Maximum age of a feed's last observation before the engine degrades,
    /// in milliseconds.
    pub staleness_bound_ms: u64,
    /// Order size placed on each trigger.
    pub order_size: u64,
}

impl Config {
    /// A configuration is usable when the threshold ratio is well defined.
    pub open spec fn wf(self) -> bool {
        self.threshold_den > 0
    }
}

impl Default for Config {
    /// Policy defaults: threshold 2/1000, one-second cooldown, five-second
    /// staleness bound, order size 100.
    fn default() -> (c: Config)
        ensures
            c == (Config {
                threshold_num: 2,
                threshold_den: 1000,
                cooldown_ms: 1000,
                staleness_bound_ms: 5000,
                order_size: 100,
            }),
            c.wf(),
    {
        Config {
            threshold_num: 2,
            threshold_den: 1000,
            cooldown_ms: 1000,
            staleness_bound_ms: 5000,
            order_size: 100,
        }
    }
}

impl TradeIntent {
    /// The caller-side idempotency key: a retry of the same trigger carries
    /// the same key, so the gateway cannot double-execute one move.
    pub fn idempotency_key(&self) -> (k: (u64, Direction))
        ensures
            k == (self.triggered_at, self.direction),
    {
        (self.triggered_at, self.direction)
    }
}

} // verus!
