use edge_engine::engine::Engine;
use edge_engine::types::{Config, Direction, Mode, PriceObservation, RejectReason, Source,
    StepResult, TradeIntent};

fn test_config() -> Config {
    Config {
        threshold_num: 2,
        threshold_den: 1000,
        cooldown_ms: 1000,
        staleness_bound_ms: 5000,
        order_size: 100,
    }
}

fn obs(source: Source, value: u64, observed_at: u64, sequence: u64) -> PriceObservation {
    PriceObservation { source, value, observed_at, sequence }
}

/// Drive a fresh engine to `Streaming`: one observation per feed.
fn streaming_engine() -> Engine {
    let mut e = Engine::new(test_config());
    // 100.0 in ticks at scale 10000
    let r = e.on_observation(obs(Source::Reference, 1_000_000, 10, 1), 10);
    assert_eq!(r, StepResult::Applied(None));
    let r = e.on_observation(obs(Source::PredictionMarket, 5_000, 11, 1), 11);
    assert_eq!(r, StepResult::Applied(None));
    assert_eq!(e.mode(12), Mode::Streaming);
    e
}

#[test]
fn starts_connecting_and_reaches_streaming() {
    let mut e = Engine::new(test_config());
    assert_eq!(e.mode(0), Mode::Connecting);
    let _ = e.on_observation(obs(Source::Reference, 1_000_000, 10, 1), 10);
    assert_eq!(e.mode(10), Mode::Connecting);
    let _ = e.on_observation(obs(Source::PredictionMarket, 5_000, 11, 1), 11);
    assert_eq!(e.mode(11), Mode::Streaming);
}

#[test]
fn first_observation_never_triggers() {
    let mut e = Engine::new(test_config());
    // a huge first price move has no baseline to compare against
    let r = e.on_observation(obs(Source::Reference, 9_999_999, 10, 1), 10);
    assert_eq!(r, StepResult::Applied(None));
    let r = e.on_observation(obs(Source::PredictionMarket, 5_000, 11, 1), 11);
    assert_eq!(r, StepResult::Applied(None));
}

#[test]
fn scenario_up_move_triggers_long() {
    // previous reference price 100.0, new observation 100.3:
    // relative change 0.003 > 0.002 triggers Long at configured size
    let mut e = streaming_engine();
    let r = e.on_observation(obs(Source::Reference, 1_003_000, 20, 2), 20);
    match r {
        StepResult::Applied(Some(intent)) => {
            assert_eq!(intent.direction, Direction::Long);
            assert_eq!(intent.size, 100);
            assert_eq!(intent.reason.reference_price_before, 1_000_000);
            assert_eq!(intent.reason.reference_price_after, 1_003_000);
            assert_eq!(intent.triggered_at, 20);
        }
        other => panic!("expected a Long trigger, got {:?}", other),
    }
    assert_eq!(e.last_trigger_at, Some(20));
    assert!(e.open_position.is_some());
}

#[test]
fn scenario_small_down_move_does_not_trigger() {
    // previous 100.0, new 99.9: relative change -0.001, no trigger
    let mut e = streaming_engine();
    let r = e.on_observation(obs(Source::Reference, 999_000, 20, 2), 20);
    assert_eq!(r, StepResult::Applied(None));
    // the observation still became the new baseline
    assert_eq!(e.last_reference_price.unwrap().value, 999_000);
}

#[test]
fn change_exactly_at_threshold_does_not_trigger() {
    // 100.0 -> 100.2 is exactly 0.002: strict inequality, no trigger
    let mut e = streaming_engine();
    let r = e.on_observation(obs(Source::Reference, 1_002_000, 20, 2), 20);
    assert_eq!(r, StepResult::Applied(None));
}

#[test]
fn scenario_cooldown_suppresses_second_trigger() {
    // 100.0 -> 99.0 triggers Short; 98.5 arrives 50ms later within the
    // 1s cooldown: state updates, no second trigger
    let mut e = streaming_engine();
    let r = e.on_observation(obs(Source::Reference, 990_000, 1000, 2), 1000);
    match r {
        StepResult::Applied(Some(intent)) => {
            assert_eq!(intent.direction, Direction::Short);
            assert_eq!(intent.triggered_at, 1000);
        }
        other => panic!("expected a Short trigger, got {:?}", other),
    }
    let r = e.on_observation(obs(Source::Reference, 985_000, 1050, 3), 1050);
    assert_eq!(r, StepResult::Applied(None));
    assert_eq!(e.last_reference_price.unwrap().value, 985_000);
    assert_eq!(e.last_trigger_at, Some(1000));
}

#[test]
fn trigger_after_cooldown_elapses() {
    let mut e = streaming_engine();
    let r = e.on_observation(obs(Source::Reference, 990_000, 1000, 2), 1000);
    assert!(matches!(r, StepResult::Applied(Some(_))));
    // exactly the cooldown later: strict inequality, still suppressed
    let r = e.on_observation(obs(Source::Reference, 980_000, 2000, 3), 2000);
    assert_eq!(r, StepResult::Applied(None));
    // past the cooldown: fires again
    let r = e.on_observation(obs(Source::Reference, 970_000, 2100, 4), 2100);
    assert!(matches!(r, StepResult::Applied(Some(_))));
}

#[test]
fn scenario_degraded_suppresses_trigger_until_fresh_baseline() {
    // reference feed disconnects; a 5% move arriving on reconnect must not
    // trigger; only a later move against the fresh baseline may
    let mut e = streaming_engine();
    e.on_disconnect(Source::Reference);
    assert_eq!(e.mode(20), Mode::Degraded);
    // the 5% move arrives as the first post-reconnect observation
    let r = e.on_observation(obs(Source::Reference, 1_050_000, 30, 2), 30);
    assert_eq!(r, StepResult::Applied(None));
    // the feed is live again and the baseline is fresh
    assert_eq!(e.mode(31), Mode::Streaming);
    // a fresh move against the post-reconnect baseline triggers normally
    let r = e.on_observation(obs(Source::Reference, 1_060_000, 40, 3), 40);
    assert!(matches!(r, StepResult::Applied(Some(_))));
}

#[test]
fn stale_observation_degrades_and_suppresses() {
    let mut e = streaming_engine();
    // both observations are from ~t=10; at t=6000 the engine is stale
    assert_eq!(e.mode(6000), Mode::Degraded);
    // a big move evaluated while degraded does not trigger
    let r = e.on_observation(obs(Source::Reference, 1_100_000, 6000, 2), 6000);
    assert_eq!(r, StepResult::Applied(None));
}

#[test]
fn duplicate_sequence_rejected_without_state_change() {
    let mut e = streaming_engine();
    let before = e;
    let r = e.on_observation(obs(Source::Reference, 1_100_000, 20, 1), 20);
    assert_eq!(r, StepResult::Rejected(RejectReason::StaleSequence));
    assert_eq!(e, before);
}

#[test]
fn out_of_order_sequence_rejected_without_state_change() {
    let mut e = streaming_engine();
    let r = e.on_observation(obs(Source::Reference, 1_003_000, 20, 5), 20);
    assert!(matches!(r, StepResult::Applied(Some(_))));
    let before = e;
    let r = e.on_observation(obs(Source::Reference, 1_500_000, 30, 3), 30);
    assert_eq!(r, StepResult::Rejected(RejectReason::StaleSequence));
    assert_eq!(e, before);
}

#[test]
fn zero_price_rejected() {
    let mut e = streaming_engine();
    let before = e;
    let r = e.on_observation(obs(Source::Reference, 0, 20, 2), 20);
    assert_eq!(r, StepResult::Rejected(RejectReason::NonPositivePrice));
    assert_eq!(e, before);
}

#[test]
fn shutdown_is_terminal_and_rejects_everything() {
    let mut e = streaming_engine();
    e.on_shutdown();
    assert_eq!(e.mode(20), Mode::ShuttingDown);
    let before = e;
    let r = e.on_observation(obs(Source::Reference, 1_100_000, 20, 2), 20);
    assert_eq!(r, StepResult::Rejected(RejectReason::ShuttingDown));
    assert_eq!(e, before);
}

#[test]
fn interleavings_converge_to_same_slots() {
    // the same per-feed observation sequences, in two different
    // order-preserving interleavings, end with the same slots
    let r1 = obs(Source::Reference, 1_000_000, 10, 1);
    let r2 = obs(Source::Reference, 1_001_000, 20, 2);
    let m1 = obs(Source::PredictionMarket, 5_000, 12, 1);
    let m2 = obs(Source::PredictionMarket, 5_100, 22, 2);

    let mut a = Engine::new(test_config());
    let _ = a.on_observation(r1, 10);
    let _ = a.on_observation(m1, 12);
    let _ = a.on_observation(r2, 20);
    let _ = a.on_observation(m2, 22);

    let mut b = Engine::new(test_config());
    let _ = b.on_observation(m1, 12);
    let _ = b.on_observation(m2, 22);
    let _ = b.on_observation(r1, 10);
    let _ = b.on_observation(r2, 20);

    assert_eq!(a.last_reference_price, b.last_reference_price);
    assert_eq!(a.last_market_quote, b.last_market_quote);
    assert_eq!(a.last_reference_price.unwrap().value, 1_001_000);
    assert_eq!(a.last_market_quote.unwrap().value, 5_100);
}

#[test]
fn market_quotes_never_trigger() {
    let mut e = streaming_engine();
    // an enormous prediction-market move is tracked but never evaluated
    let r = e.on_observation(obs(Source::PredictionMarket, 9_000, 20, 2), 20);
    assert_eq!(r, StepResult::Applied(None));
    assert_eq!(e.last_market_quote.unwrap().value, 9_000);
}

#[test]
fn default_config_values() {
    let c = Config::default();
    assert_eq!(c.threshold_num, 2);
    assert_eq!(c.threshold_den, 1000);
    assert_eq!(c.cooldown_ms, 1000);
    assert_eq!(c.staleness_bound_ms, 5000);
    assert_eq!(c.order_size, 100);
}

#[test]
fn idempotency_key_is_time_and_direction() {
    let intent = TradeIntent {
        direction: Direction::Long,
        size: 100,
        reason: edge_engine::types::EdgeSignal {
            reference_price_before: 1_000_000,
            reference_price_after: 1_003_000,
        },
        triggered_at: 42,
    };
    assert_eq!(intent.idempotency_key(), (42, Direction::Long));
}
