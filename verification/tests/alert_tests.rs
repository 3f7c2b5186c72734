use chain_watch::alert::{AlertConfig, AlertConfigParams, AlertOutcome, AlertThresholdType};
use chain_watch::metric::MetricDataPoint;

fn params(threshold_type: AlertThresholdType, threshold_value: i64) -> AlertConfigParams {
    AlertConfigParams {
        threshold_type,
        threshold_value,
        secondary_threshold: None,
        min_trigger_interval: 0,
        required_violations: 1,
    }
}

fn alert(params: AlertConfigParams) -> AlertConfig {
    AlertConfig {
        metric: 0,
        params,
        enabled: true,
        last_triggered: 0,
        consecutive_violations: 0,
    }
}

fn point(timestamp: i64, value: i64) -> MetricDataPoint {
    MetricDataPoint { timestamp, value }
}

#[test]
fn above_qualifies_strictly() {
    let p = params(AlertThresholdType::Above, 50);
    assert!(!p.sample_qualifies(50, None));
    assert!(p.sample_qualifies(51, None));
}

#[test]
fn below_qualifies_strictly() {
    let p = params(AlertThresholdType::Below, 50);
    assert!(!p.sample_qualifies(50, None));
    assert!(p.sample_qualifies(49, None));
}

#[test]
fn change_needs_a_previous_sample() {
    let p = params(AlertThresholdType::Change, 10);
    assert!(!p.sample_qualifies(100, None));
    assert!(!p.sample_qualifies(100, Some(point(0, 90))));
    assert!(p.sample_qualifies(100, Some(point(0, 89))));
    assert!(p.sample_qualifies(100, Some(point(0, 111))));
}

#[test]
fn range_qualifies_outside_the_band() {
    let p = AlertConfigParams {
        secondary_threshold: Some(20),
        ..params(AlertThresholdType::Range, 10)
    };
    assert!(!p.sample_qualifies(15, None));
    assert!(p.sample_qualifies(25, None));
    assert!(p.sample_qualifies(9, None));
    assert!(!p.sample_qualifies(10, None));
    assert!(!p.sample_qualifies(20, None));
}

#[test]
fn disabled_alert_is_skipped_entirely() {
    let mut a = alert(params(AlertThresholdType::Above, 0));
    a.enabled = false;
    a.consecutive_violations = 7;
    let outcome = a.evaluate(point(10, 100), None);
    assert_eq!(outcome, AlertOutcome::NoAction);
    assert_eq!(a.consecutive_violations, 7);
    assert_eq!(a.last_triggered, 0);
}

#[test]
fn first_firing_needs_no_prior_interval() {
    let mut a = alert(AlertConfigParams {
        min_trigger_interval: 1000,
        ..params(AlertThresholdType::Above, 50)
    });
    let outcome = a.evaluate(point(10, 60), None);
    assert_eq!(outcome, AlertOutcome::Fired);
    assert_eq!(a.last_triggered, 10);
    assert_eq!(a.consecutive_violations, 0);
}

#[test]
fn streak_accumulates_then_fires() {
    // Above threshold 50, two required violations, one-minute debounce.
    let mut a = alert(AlertConfigParams {
        min_trigger_interval: 60,
        required_violations: 2,
        ..params(AlertThresholdType::Above, 50)
    });
    assert_eq!(a.evaluate(point(10, 60), None), AlertOutcome::NoAction);
    assert_eq!(a.consecutive_violations, 1);
    assert_eq!(a.evaluate(point(20, 70), None), AlertOutcome::Fired);
    assert_eq!(a.last_triggered, 20);
    // Firing demands a fresh streak: the next qualifying sample only
    // accumulates again.
    assert_eq!(a.evaluate(point(30, 80), None), AlertOutcome::NoAction);
    assert_eq!(a.consecutive_violations, 1);
    // The streak is full again inside the debounce window: suppressed, and
    // the streak is kept.
    assert_eq!(a.evaluate(point(40, 90), None), AlertOutcome::Suppressed);
    assert_eq!(a.consecutive_violations, 2);
    assert_eq!(a.last_triggered, 20);
    // Once the interval has elapsed the kept streak fires at once.
    assert_eq!(a.evaluate(point(80, 95), None), AlertOutcome::Fired);
    assert_eq!(a.last_triggered, 80);
    assert_eq!(a.consecutive_violations, 0);
}

#[test]
fn non_qualifying_sample_resets_the_streak() {
    let mut a = alert(AlertConfigParams {
        required_violations: 3,
        ..params(AlertThresholdType::Above, 50)
    });
    assert_eq!(a.evaluate(point(1, 60), None), AlertOutcome::NoAction);
    assert_eq!(a.evaluate(point(2, 61), None), AlertOutcome::NoAction);
    assert_eq!(a.consecutive_violations, 2);
    // One non-qualifying sample right before the third violation: reset.
    assert_eq!(a.evaluate(point(3, 50), None), AlertOutcome::NoAction);
    assert_eq!(a.consecutive_violations, 0);
    // The count starts over; the earlier near-miss never fires.
    assert_eq!(a.evaluate(point(4, 70), None), AlertOutcome::NoAction);
    assert_eq!(a.evaluate(point(5, 70), None), AlertOutcome::NoAction);
    assert_eq!(a.evaluate(point(6, 70), None), AlertOutcome::Fired);
}

#[test]
fn debounce_suppresses_until_the_interval_elapses() {
    let mut a = alert(AlertConfigParams {
        min_trigger_interval: 60,
        ..params(AlertThresholdType::Above, 50)
    });
    assert_eq!(a.evaluate(point(100, 60), None), AlertOutcome::Fired);
    assert_eq!(a.last_triggered, 100);
    assert_eq!(a.evaluate(point(120, 60), None), AlertOutcome::Suppressed);
    assert_eq!(a.evaluate(point(159, 60), None), AlertOutcome::Suppressed);
    assert_eq!(a.last_triggered, 100);
    // Exactly at the end of the interval the alert may fire again.
    assert_eq!(a.evaluate(point(160, 60), None), AlertOutcome::Fired);
    assert_eq!(a.last_triggered, 160);
}

#[test]
fn violation_streak_saturates_at_its_cap() {
    let mut a = alert(AlertConfigParams {
        min_trigger_interval: 1_000_000,
        ..params(AlertThresholdType::Above, 0)
    });
    assert_eq!(a.evaluate(point(1, 1), None), AlertOutcome::Fired);
    // Qualifying samples inside the debounce window keep growing the streak
    // until it reaches the counter's cap, where it stays.
    for t in 2..=400 {
        assert_eq!(a.evaluate(point(t, 1), None), AlertOutcome::Suppressed);
    }
    assert_eq!(a.consecutive_violations, u8::MAX);
    assert_eq!(a.last_triggered, 1);
}
