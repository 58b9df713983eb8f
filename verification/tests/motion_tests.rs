use agent_viz::motion::{Classification, IDLE_THRESHOLD_MS, MotionClassifier};
use agent_viz::sample::Sample;

fn at(row: usize, col: usize) -> Sample {
    Sample { row, col, energy_level: 0, carried_rock_count: 0 }
}

#[test]
fn starts_unknown() {
    let c = MotionClassifier::new();
    assert_eq!(c.classification, Classification::Unknown);
    assert_eq!(c.last_change_ms, None);
    assert!(!c.is_idle());
}

#[test]
fn hysteresis_over_the_three_second_threshold() {
    // one sample at (5,5) at t=0, identical samples at t=1000 and t=2000:
    // moving throughout; t=3100 at the same position: idle; t=3200 at
    // (5,6): moving again at once
    let mut c = MotionClassifier::new();
    c.observe(&at(5, 5), 0);
    assert_eq!(c.classification, Classification::Moving);
    c.observe(&at(5, 5), 1000);
    assert_eq!(c.classification, Classification::Moving);
    c.observe(&at(5, 5), 2000);
    assert_eq!(c.classification, Classification::Moving);
    c.observe(&at(5, 5), 3100);
    assert_eq!(c.classification, Classification::Idle);
    assert!(c.is_idle());
    c.observe(&at(5, 6), 3200);
    assert_eq!(c.classification, Classification::Moving);
    assert!(!c.is_idle());
}

#[test]
fn threshold_is_inclusive() {
    let mut c = MotionClassifier::new();
    c.observe(&at(2, 2), 500);
    c.observe(&at(2, 2), 500 + IDLE_THRESHOLD_MS - 1);
    assert_eq!(c.classification, Classification::Moving);
    c.observe(&at(2, 2), 500 + IDLE_THRESHOLD_MS);
    assert_eq!(c.classification, Classification::Idle);
}

#[test]
fn first_sample_at_origin_starts_the_clock() {
    // the classifier's initial position is the origin, so a first sample
    // there looks unchanged: the clock starts and the state turns moving
    let mut c = MotionClassifier::new();
    c.observe(&at(0, 0), 42);
    assert_eq!(c.classification, Classification::Moving);
    assert_eq!(c.last_change_ms, Some(42));
    c.observe(&at(0, 0), 42 + IDLE_THRESHOLD_MS);
    assert_eq!(c.classification, Classification::Idle);
}

#[test]
fn idle_survives_below_threshold_repeats() {
    let mut c = MotionClassifier::new();
    c.observe(&at(1, 1), 0);
    c.observe(&at(1, 1), IDLE_THRESHOLD_MS);
    assert_eq!(c.classification, Classification::Idle);
    // still on the same tile shortly after: stays idle, clock not reset
    c.observe(&at(1, 1), IDLE_THRESHOLD_MS + 100);
    assert_eq!(c.classification, Classification::Idle);
    assert_eq!(c.last_change_ms, Some(0));
}
