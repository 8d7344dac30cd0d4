//! The engine: the single mutable record holding the latest observation per
//! feed, trigger bookkeeping and connectivity, together with the transition
//! taken on each feed event.
//!
//! The mode is derived, not stored: the engine is `Connecting` until both
//! feeds have delivered a first observation, `Degraded` while either feed is
//! disconnected or its last observation is older than the staleness bound,
//! `Streaming` otherwise, and `ShuttingDown` once a shutdown signal arrived.
//! An observation is evaluated against the mode as it stood before the
//! observation is applied, so the first observation after a reconnect only
//! restores the baseline and cannot itself trigger.

use vstd::prelude::*;
use crate::types::{Config, EdgeSignal, Mode, PriceObservation, RejectReason, Source, StepResult,
    TradeIntent};
use crate::edge::{cooldown_elapsed, direction_of, exceeds_threshold, is_fresh,
    spec_cooldown_elapsed, spec_direction, spec_exceeds_threshold, spec_fresh};

verus! {

/// Does an observation with sequence number `seq` strictly advance the
/// sequence stored in `slot`?
pub open spec fn spec_seq_ok(slot: Option<PriceObservation>, seq: u64) -> bool {
    match slot {
        None => true,
        Some(o) => seq > o.sequence,
    }
}

/// Is the observation in `slot` present and still fresh at `now`?
pub open spec fn spec_slot_fresh(slot: Option<PriceObservation>, now: u64, bound: u64) -> bool {
    match slot {
        None => false,
        Some(o) => spec_fresh(o.observed_at, now, bound),
    }
}

/// Engine state. Exclusively owned by the orchestrating event loop; all
/// mutation goes through the `on_*` methods.
#[derive(Clone, Copy, Debug, PartialEq, Eq)]
pub struct Engine {
    pub config: Config,
    /// Latest accepted observation from the reference-asset feed.
    pub last_reference_price: Option<PriceObservation>,
    /// Latest accepted observation from the prediction-market feed; tracked
    /// for staleness and audit only, it never triggers a trade.
    pub last_market_quote: Option<PriceObservation>,
    /// When the last trigger fired, for the cooldown window.
    pub last_trigger_at: Option<u64>,
    /// Audit copy of the last dispatched intent.
    pub open_position: Option<TradeIntent>,
    pub reference_connected: bool,
    pub market_connected: bool,
    pub shutting_down: bool,
}

impl Engine {
    /// Internal invariant: the configuration is usable, and each slot holds
    /// only positive-priced observations from its own feed.
    pub open spec fn wf(self) -> bool {
        &&& self.config.wf()
        &&& match self.last_reference_price {
            None => true,
            Some(o) => o.source == Source::Reference && o.value > 0,
        }
        &&& match self.last_market_quote {
            None => true,
            Some(o) => o.source == Source::PredictionMarket && o.value > 0,
        }
    }

    /// The slot owned by a feed.
    pub open spec fn spec_slot(self, src: Source) -> Option<PriceObservation> {
        match src {
            Source::Reference => self.last_reference_price,
            Source::PredictionMarket => self.last_market_quote,
        }
    }

    /// The derived orchestration mode at time `now`.
    pub open spec fn spec_mode(self, now: u64) -> Mode {
        if self.shutting_down {
            Mode::ShuttingDown
        } else if self.last_reference_price is None || self.last_market_quote is None {
            Mode::Connecting
        } else if !(self.reference_connected && self.market_connected
            && spec_slot_fresh(self.last_reference_price, now, self.config.staleness_bound_ms)
            && spec_slot_fresh(self.last_market_quote, now, self.config.staleness_bound_ms)) {
            Mode::Degraded
        } else {
            Mode::Streaming
        }
    }

    /// Is an observation applied at all (as opposed to discarded)?
    pub open spec fn spec_accepts(self, obs: PriceObservation) -> bool {
        &&& !self.shutting_down
        &&& obs.value > 0
        &&& spec_seq_ok(self.spec_slot(obs.source), obs.sequence)
    }

    /// The trigger condition: a reference-feed observation whose move from
    /// the stored baseline exceeds the threshold, outside the cooldown
    /// window, while the engine (as it stood before this observation) is
    /// streaming.
    pub open spec fn spec_should_trigger(self, obs: PriceObservation, now: u64) -> bool {
        &&& obs.source == Source::Reference
        &&& match self.last_reference_price {
            None => false,
            Some(prev) => spec_exceeds_threshold(
                prev.value,
                obs.value,
                self.config.threshold_num,
                self.config.threshold_den,
            ),
        }
        &&& spec_cooldown_elapsed(self.last_trigger_at, now, self.config.cooldown_ms)
        &&& self.spec_mode(now) == Mode::Streaming
    }

    /// The intent produced when the trigger condition holds.
    pub open spec fn spec_intent(self, obs: PriceObservation, now: u64) -> TradeIntent
        recommends
            self.last_reference_price is Some,
    {
        let before = match self.last_reference_price {
            None => 0u64,
            Some(prev) => prev.value,
        };
        TradeIntent {
            direction: spec_direction(before, obs.value),
            size: self.config.order_size,
            reason: EdgeSignal {
                reference_price_before: before,
                reference_price_after: obs.value,
            },
            triggered_at: now,
        }
    }

    /// The state after one observation: a discarded observation changes
    /// nothing; an applied one replaces its feed's slot, marks the feed
    /// connected, and on a trigger records the trigger time and intent.
    pub open spec fn spec_apply(self, obs: PriceObservation, now: u64) -> Engine {
        if !self.spec_accepts(obs) {
            self
        } else {
            let stepped = if self.spec_should_trigger(obs, now) {
                Engine {
                    last_trigger_at: Some(now),
                    open_position: Some(self.spec_intent(obs, now)),
                    ..self
                }
            } else {
                self
            };
            match obs.source {
                Source::Reference => Engine {
                    last_reference_price: Some(obs),
                    reference_connected: true,
                    ..stepped
                },
                Source::PredictionMarket => Engine {
                    last_market_quote: Some(obs),
                    market_connected: true,
                    ..stepped
                },
            }
        }
    }

    /// The result reported for one observation.
    pub open spec fn spec_outcome(self, obs: PriceObservation, now: u64) -> StepResult {
        if self.shutting_down {
            StepResult::Rejected(RejectReason::ShuttingDown)
        } else if obs.value == 0 {
            StepResult::Rejected(RejectReason::NonPositivePrice)
        } else if !spec_seq_ok(self.spec_slot(obs.source), obs.sequence) {
            StepResult::Rejected(RejectReason::StaleSequence)
        } else if self.spec_should_trigger(obs, now) {
            StepResult::Applied(Some(self.spec_intent(obs, now)))
        } else {
            StepResult::Applied(None)
        }
    }

    /// The state after a feed reports a transport-level disconnect.
    pub open spec fn spec_disconnect(self, src: Source) -> Engine {
        match src {
            Source::Reference => Engine { reference_connected: false, ..self },
            Source::PredictionMarket => Engine { market_connected: false, ..self },
        }
    }

    /// A fresh engine: no observations, no trigger, both feeds still
    /// connecting.
    pub fn new(config: Config) -> (e: Engine)
        requires
            config.wf(),
        ensures
            e == (Engine {
                config,
                last_reference_price: None,
                last_market_quote: None,
                last_trigger_at: None,
                open_position: None,
                reference_connected: false,
                market_connected: false,
                shutting_down: false,
            }),
            e.wf(),
    {
        Engine {
            config,
            last_reference_price: None,
            last_market_quote: None,
            last_trigger_at: None,
            open_position: None,
            reference_connected: false,
            market_connected: false,
            shutting_down: false,
        }
    }

    /// The current orchestration mode.
    pub fn mode(&self, now: u64) -> (m: Mode)
        ensures
            m == self.spec_mode(now),
    {
        if self.shutting_down {
            return Mode::ShuttingDown;
        }
        match (&self.last_reference_price, &self.last_market_quote) {
            (Some(r), Some(q)) => {
                if self.reference_connected && self.market_connected
                    && is_fresh(r.observed_at, now, self.config.staleness_bound_ms)
                    && is_fresh(q.observed_at, now, self.config.staleness_bound_ms) {
                    Mode::Streaming
                } else {
                    Mode::Degraded
                }
            },
            _ => Mode::Connecting,
        }
    }

    /// Feed one decoded observation to the engine at time `now`.
    ///
    /// A trigger fires if and only if the observation is applied, comes from
    /// the reference feed, its move from the stored baseline strictly exceeds
    /// the threshold, the cooldown has elapsed, and the engine was streaming.
    pub fn on_observation(&mut self, obs: PriceObservation, now: u64) -> (r: StepResult)
        requires
            old(self).wf(),
        ensures
            final(self).wf(),
            *final(self) == old(self).spec_apply(obs, now),
            r == old(self).spec_outcome(obs, now),
            (r matches StepResult::Applied(i) && i is Some) <==> (old(self).spec_accepts(obs)
                && old(self).spec_should_trigger(obs, now)),
            (r is Rejected) ==> *final(self) == *old(self),
    {
        if self.shutting_down {
            return StepResult::Rejected(RejectReason::ShuttingDown);
        }
        if obs.value == 0 {
            return StepResult::Rejected(RejectReason::NonPositivePrice);
        }
        let seq_ok = match obs.source {
            Source::Reference => match &self.last_reference_price {
                None => true,
                Some(p) => obs.sequence > p.sequence,
            },
            Source::PredictionMarket => match &self.last_market_quote {
                None => true,
                Some(p) => obs.sequence > p.sequence,
            },
        };
        if !seq_ok {
            return StepResult::Rejected(RejectReason::StaleSequence);
        }
        let m = self.mode(now);
        let mut intent: Option<TradeIntent> = None;
        if obs.source == Source::Reference && m == Mode::Streaming {
            if let Some(prev) = self.last_reference_price {
                if exceeds_threshold(
                    prev.value,
                    obs.value,
                    self.config.threshold_num,
                    self.config.threshold_den,
                ) && cooldown_elapsed(self.last_trigger_at, now, self.config.cooldown_ms) {
                    let it = TradeIntent {
                        direction: direction_of(prev.value, obs.value),
                        size: self.config.order_size,
                        reason: EdgeSignal {
                            reference_price_before: prev.value,
                            reference_price_after: obs.value,
                        },
                        triggered_at: now,
                    };
                    intent = Some(it);
                    self.last_trigger_at = Some(now);
                    self.open_position = Some(it);
                }
            }
        }
        match obs.source {
            Source::Reference => {
                self.last_reference_price = Some(obs);
                self.reference_connected = true;
            },
            Source::PredictionMarket => {
                self.last_market_quote = Some(obs);
                self.market_connected = true;
            },
        }
        StepResult::Applied(intent)
    }

    /// A feed reported a transport-level disconnect: mark it so, which takes
    /// a streaming engine to `Degraded` until a fresh observation arrives on
    /// that feed again.
    pub fn on_disconnect(&mut self, src: Source)
        requires
            old(self).wf(),
        ensures
            final(self).wf(),
            *final(self) == old(self).spec_disconnect(src),
    {
        match src {
            Source::Reference => {
                self.reference_connected = false;
            },
            Source::PredictionMarket => {
                self.market_connected = false;
            },
        }
    }

    /// An external cancellation signal arrived: enter the terminal mode. All
    /// later observations are rejected.
    pub fn on_shutdown(&mut self)
        requires
            old(self).wf(),
        ensures
            final(self).wf(),
            *final(self) == (Engine { shutting_down: true, ..*old(self) }),
            forall|t: u64| final(self).spec_mode(t) == Mode::ShuttingDown,
    {
        self.shutting_down = true;
    }
}

} // verus!
