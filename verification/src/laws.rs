//! Engine-wide laws: statements that relate whole runs of the engine, proved
//! once and for all over the transition spec in `engine`.

use vstd::prelude::*;
use crate::types::{PriceObservation, Mode, RejectReason, Source, StepResult};
use crate::edge::spec_fresh;
use crate::engine::{Engine, spec_seq_ok, spec_slot_fresh};

verus! {

/// An observation paired with the engine-clock time at which it was fed in.
pub struct TimedObservation {
    pub obs: PriceObservation,
    pub at: u64,
}

/// The engine after a whole run of observations, fed in order.
pub open spec fn apply_all(e: Engine, evs: Seq<TimedObservation>) -> Engine
    decreases evs.len(),
{
    if evs.len() == 0 {
        e
    } else {
        apply_all(e.spec_apply(evs[0].obs, evs[0].at), evs.skip(1))
    }
}

/// The subsequence of observations that came from one feed, in order.
pub open spec fn source_obs(evs: Seq<TimedObservation>, src: Source) -> Seq<PriceObservation>
    decreases evs.len(),
{
    if evs.len() == 0 {
        Seq::empty()
    } else {
        let rest = source_obs(evs.skip(1), src);
        if evs[0].obs.source == src {
            seq![evs[0].obs] + rest
        } else {
            rest
        }
    }
}

/// What one observation does to its own feed's slot: a positive price with a
/// strictly advancing sequence number replaces the slot, anything else is
/// discarded.
pub open spec fn slot_step(slot: Option<PriceObservation>, obs: PriceObservation) -> Option<
    PriceObservation,
> {
    if obs.value > 0 && spec_seq_ok(slot, obs.sequence) {
        Some(obs)
    } else {
        slot
    }
}

/// A feed's slot after a run of that feed's own observations.
pub open spec fn slot_fold(slot: Option<PriceObservation>, obs_seq: Seq<PriceObservation>) -> Option<
    PriceObservation,
>
    decreases obs_seq.len(),
{
    if obs_seq.len() == 0 {
        slot
    } else {
        slot_fold(slot_step(slot, obs_seq[0]), obs_seq.skip(1))
    }
}

/// No trigger can fire from the very first observation on a feed: a
/// reference observation without a stored baseline has nothing to compare
/// against, and a prediction-market observation never triggers at all.
pub proof fn lemma_first_observation_never_triggers(e: Engine, obs: PriceObservation, now: u64)
    requires
        e.spec_slot(obs.source) is None,
    ensures
        e.spec_outcome(obs, now) matches StepResult::Applied(i) ==> i is None,
{
}

/// While the engine is not streaming — degraded, still connecting, or
/// shutting down — no trade intent is produced, regardless of how far the
/// reference price moved.
pub proof fn lemma_not_streaming_never_triggers(e: Engine, obs: PriceObservation, now: u64)
    requires
        e.spec_mode(now) != Mode::Streaming,
    ensures
        e.spec_outcome(obs, now) matches StepResult::Applied(i) ==> i is None,
{
}

/// A duplicate or out-of-order sequence number is rejected and the engine is
/// left exactly as it was.
pub proof fn lemma_stale_sequence_changes_nothing(e: Engine, obs: PriceObservation, now: u64)
    requires
        !spec_seq_ok(e.spec_slot(obs.source), obs.sequence),
    ensures
        e.spec_apply(obs, now) == e,
        e.spec_outcome(obs, now) is Rejected,
{
}

/// Over any run of observations: the observation at position `k` produces a
/// trade intent if and only if it is accepted (valid price, fresh sequence
/// number, not shutting down) and the trigger condition — reference-feed
/// move beyond the threshold, cooldown elapsed, engine streaming — holds for
/// the engine as it stands just before that observation.
pub proof fn lemma_trigger_iff(e: Engine, evs: Seq<TimedObservation>, k: int)
    requires
        0 <= k < evs.len(),
    ensures
        ({
            let before = apply_all(e, evs.take(k));
            (before.spec_outcome(evs[k].obs, evs[k].at) matches StepResult::Applied(i)
                && i is Some) <==> (before.spec_accepts(evs[k].obs)
                && before.spec_should_trigger(evs[k].obs, evs[k].at))
        }),
{
}

/// A streaming engine degrades the moment a feed reports a disconnect.
pub proof fn lemma_disconnect_degrades(e: Engine, src: Source, now: u64)
    requires
        e.spec_mode(now) == Mode::Streaming,
    ensures
        e.spec_disconnect(src).spec_mode(now) == Mode::Degraded,
{
}

/// A degraded or connecting engine returns to streaming exactly by accepting
/// a fresh observation on the feed that was missing, while the other feed is
/// connected and fresh.
pub proof fn lemma_fresh_observation_restores_streaming(
    e: Engine,
    obs: PriceObservation,
    now: u64,
)
    requires
        e.spec_accepts(obs),
        spec_fresh(obs.observed_at, now, e.config.staleness_bound_ms),
        (match obs.source {
            Source::Reference => e.market_connected && spec_slot_fresh(
                e.last_market_quote,
                now,
                e.config.staleness_bound_ms,
            ),
            Source::PredictionMarket => e.reference_connected && spec_slot_fresh(
                e.last_reference_price,
                now,
                e.config.staleness_bound_ms,
            ),
        }),
    ensures
        e.spec_apply(obs, now).spec_mode(now) == Mode::Streaming,
{
}

/// Shutdown is terminal: a shutting-down engine rejects every observation,
/// never changes, and stays in the terminal mode.
pub proof fn lemma_shutdown_terminal(e: Engine, obs: PriceObservation, now: u64)
    requires
        e.shutting_down,
    ensures
        e.spec_apply(obs, now) == e,
        e.spec_outcome(obs, now) == StepResult::Rejected(RejectReason::ShuttingDown),
        e.spec_mode(now) == Mode::ShuttingDown,
{
}

/// After any run that starts before a shutdown, each feed's slot is exactly
/// the fold of that feed's own observations over it: an observation never
/// touches the other feed's slot, and whether it is kept depends only on its
/// own feed's slot history.
pub proof fn lemma_slots_from_own_feed(e: Engine, evs: Seq<TimedObservation>)
    requires
        !e.shutting_down,
    ensures
        apply_all(e, evs).last_reference_price == slot_fold(
            e.last_reference_price,
            source_obs(evs, Source::Reference),
        ),
        apply_all(e, evs).last_market_quote == slot_fold(
            e.last_market_quote,
            source_obs(evs, Source::PredictionMarket),
        ),
    decreases evs.len(),
{
    if evs.len() == 0 {
    } else {
        let e1 = e.spec_apply(evs[0].obs, evs[0].at);
        lemma_slots_from_own_feed(e1, evs.skip(1));
        assert((seq![evs[0].obs] + source_obs(evs.skip(1), Source::Reference)).skip(1)
            =~= source_obs(evs.skip(1), Source::Reference));
        assert((seq![evs[0].obs] + source_obs(evs.skip(1), Source::PredictionMarket)).skip(1)
            =~= source_obs(evs.skip(1), Source::PredictionMarket));
    }
}

/// Per-feed order determinism: two interleavings that carry the same per-feed
/// observation sequences converge to the same latest observation in each
/// feed's slot. Trigger bookkeeping (`last_trigger_at`, `open_position`) is
/// excluded: whether a move triggers depends on the other feed's freshness at
/// the moment of arrival, which the interleaving does decide.
pub proof fn lemma_interleaving_determines_slots(
    e: Engine,
    evs1: Seq<TimedObservation>,
    evs2: Seq<TimedObservation>,
)
    requires
        !e.shutting_down,
        source_obs(evs1, Source::Reference) == source_obs(evs2, Source::Reference),
        source_obs(evs1, Source::PredictionMarket) == source_obs(evs2, Source::PredictionMarket),
    ensures
        apply_all(e, evs1).last_reference_price == apply_all(e, evs2).last_reference_price,
        apply_all(e, evs1).last_market_quote == apply_all(e, evs2).last_market_quote,
{
    lemma_slots_from_own_feed(e, evs1);
    lemma_slots_from_own_feed(e, evs2);
}

} // verus!
