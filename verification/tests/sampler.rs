//! Tests of the sampler's per-cycle decisions.

use temp_hum::sampler::{Sampler, SensorEvent, StepOutcome};
use temp_hum::store::Store;

fn reading_event(time: i64, temperature: i64, rel_humidity: i64) -> SensorEvent {
    SensorEvent::Reading { time, temperature, rel_humidity }
}

#[test]
fn first_reading_is_deferred() {
    let mut store = Store::new(10);
    let mut sampler = Sampler::new();
    let outcome = sampler.step(&mut store, reading_event(1, 20_000, 50_000));
    assert_eq!(outcome, StepOutcome::Deferred);
    assert_eq!(store.len(), 0);
}

#[test]
fn pending_commits_unconditionally_into_empty_store() {
    // empty store: the pending reading is committed when the next raw
    // sample arrives, however far it lies from anything
    let mut store = Store::new(10);
    let mut sampler = Sampler::new();
    sampler.step(&mut store, reading_event(1, 20_000, 50_000));
    let outcome = sampler.step(&mut store, reading_event(2, 75_000, 5_000));
    assert_eq!(outcome, StepOutcome::Committed);
    assert_eq!(store.len(), 1);
    assert_eq!(store.latest().unwrap().time, 1);
    assert_eq!(store.latest().unwrap().temperature, 20_000);
}

#[test]
fn outlier_is_discarded_and_window_slides() {
    let mut store = Store::new(10);
    let mut sampler = Sampler::new();
    // establish a baseline of 20.0 C / 50.0 %
    sampler.step(&mut store, reading_event(1, 20_000, 50_000));
    sampler.step(&mut store, reading_event(2, 20_000, 50_000));
    assert_eq!(store.len(), 1);
    // the spike arrives: the steady reading before it still commits,
    // because the window widens to the spike's own spread
    sampler.step(&mut store, reading_event(3, 30_000, 50_000));
    assert_eq!(store.len(), 2);
    // the 30.0 C spike between neighbours near 20.0 C is rejected...
    let outcome = sampler.step(&mut store, reading_event(4, 20_100, 50_000));
    assert_eq!(outcome, StepOutcome::Discarded);
    assert_eq!(store.len(), 2);
    // ...and the window slid forward: the reading after the spike is
    // committed on the next cycle
    let outcome = sampler.step(&mut store, reading_event(5, 20_200, 50_000));
    assert_eq!(outcome, StepOutcome::Committed);
    assert_eq!(store.len(), 3);
    assert_eq!(store.latest().unwrap().time, 4);
}

#[test]
fn humidity_outlier_alone_rejects_the_reading() {
    let mut store = Store::new(10);
    let mut sampler = Sampler::new();
    sampler.step(&mut store, reading_event(1, 20_000, 50_000));
    sampler.step(&mut store, reading_event(2, 20_000, 50_000));
    // temperature steady, humidity spikes by 10 %
    sampler.step(&mut store, reading_event(3, 20_000, 60_000));
    assert_eq!(store.len(), 2);
    let outcome = sampler.step(&mut store, reading_event(4, 20_000, 50_100));
    assert_eq!(outcome, StepOutcome::Discarded);
    assert_eq!(store.len(), 2);
}

#[test]
fn gradual_trend_is_never_rejected() {
    let mut store = Store::new(10);
    let mut sampler = Sampler::new();
    sampler.step(&mut store, reading_event(1, 20_000, 50_000));
    for i in 2..10 {
        let outcome =
            sampler.step(&mut store, reading_event(i, 20_000 + 200 * i, 50_000 + 300 * i));
        assert_eq!(outcome, StepOutcome::Committed);
    }
    assert_eq!(store.len(), 8);
}

#[test]
fn transient_failure_changes_nothing() {
    let mut store = Store::new(10);
    let mut sampler = Sampler::new();
    sampler.step(&mut store, reading_event(1, 20_000, 50_000));
    let outcome = sampler.step(&mut store, SensorEvent::Transient);
    assert_eq!(outcome, StepOutcome::Skipped);
    assert_eq!(store.len(), 0);
    assert!(!sampler.is_halted());
    // the pending reading survived the failed cycle
    let outcome = sampler.step(&mut store, reading_event(2, 20_100, 50_000));
    assert_eq!(outcome, StepOutcome::Committed);
    assert_eq!(store.latest().unwrap().time, 1);
}

#[test]
fn invalid_value_halts_the_sampler_for_good() {
    let mut store = Store::new(10);
    let mut sampler = Sampler::new();
    sampler.step(&mut store, reading_event(1, 20_000, 50_000));
    sampler.step(&mut store, reading_event(2, 20_000, 50_000));
    assert_eq!(store.len(), 1);

    let outcome = sampler.step(&mut store, SensorEvent::Invalid);
    assert_eq!(outcome, StepOutcome::Halted);
    assert!(sampler.is_halted());

    // no later event ever commits again; the store keeps its data
    let outcome = sampler.step(&mut store, reading_event(3, 20_000, 50_000));
    assert_eq!(outcome, StepOutcome::Halted);
    let outcome = sampler.step(&mut store, reading_event(4, 20_000, 50_000));
    assert_eq!(outcome, StepOutcome::Halted);
    let outcome = sampler.step(&mut store, SensorEvent::Transient);
    assert_eq!(outcome, StepOutcome::Halted);
    assert_eq!(store.len(), 1);
    assert_eq!(store.latest().unwrap().time, 1);
}
