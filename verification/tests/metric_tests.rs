use chain_watch::errors::{MonitoringError, RejectReason};
use chain_watch::metric::{MetricAccount, MetricDataPoint, MetricParams};
use chain_watch::registry::{add_metric, initialize_monitoring, MonitoringConfig, MonitoringState};

fn config() -> MonitoringConfig {
    MonitoringConfig {
        max_metrics: 3,
        max_alerts: 3,
        max_data_points: 5,
        min_update_interval: 0,
        rate_limiting_enabled: false,
    }
}

fn plain_params() -> MetricParams {
    MetricParams {
        min_value: None,
        max_value: None,
        max_rate_of_change: None,
        store_history: true,
        retention_period: 5,
    }
}

fn registry() -> MonitoringState {
    initialize_monitoring(config()).unwrap()
}

#[test]
fn add_metric_starts_enabled_and_empty() {
    let mut state = registry();
    let id = add_metric(&mut state, String::from("cpu"), plain_params()).unwrap();
    assert_eq!(id, 0);
    let m = &state.metrics[id];
    assert_eq!(m.name, "cpu");
    assert!(m.enabled);
    assert_eq!(m.last_updated, 0);
    assert!(m.data_points.is_empty());
}

#[test]
fn name_of_32_characters_is_accepted() {
    let mut state = registry();
    let name = "a".repeat(32);
    assert!(add_metric(&mut state, name, plain_params()).is_ok());
}

#[test]
fn name_too_long_is_rejected() {
    let mut state = registry();
    let name = "a".repeat(33);
    let r = add_metric(&mut state, name, plain_params());
    assert_eq!(r.unwrap_err(), MonitoringError::NameTooLong);
    assert_eq!(state.metrics.len(), 0);
}

#[test]
fn metric_capacity_is_enforced() {
    let mut state = registry();
    for i in 0..3 {
        let id = add_metric(&mut state, format!("m{i}"), plain_params()).unwrap();
        assert_eq!(id, i);
    }
    let r = add_metric(&mut state, String::from("overflow"), plain_params());
    assert_eq!(r.unwrap_err(), MonitoringError::CapacityExceeded);
    assert_eq!(state.metrics.len(), 3);
}

fn account(params: MetricParams, last_updated: i64, history: Vec<(i64, i64)>) -> MetricAccount {
    MetricAccount {
        name: String::from("m"),
        params,
        enabled: true,
        last_updated,
        data_points: history
            .into_iter()
            .map(|(timestamp, value)| MetricDataPoint { timestamp, value })
            .collect(),
    }
}

#[test]
fn disabled_metric_rejects_everything() {
    let mut m = account(plain_params(), 0, vec![]);
    m.enabled = false;
    assert_eq!(m.validate_value(5, 10).unwrap_err(), RejectReason::Disabled);
}

#[test]
fn stale_timestamp_is_rejected() {
    let m = account(plain_params(), 100, vec![]);
    assert_eq!(
        m.validate_value(5, 100).unwrap_err(),
        RejectReason::NonMonotonicTimestamp
    );
    assert_eq!(
        m.validate_value(5, 99).unwrap_err(),
        RejectReason::NonMonotonicTimestamp
    );
    assert!(m.validate_value(5, 101).is_ok());
}

#[test]
fn value_below_minimum_is_rejected() {
    let params = MetricParams {
        min_value: Some(10),
        ..plain_params()
    };
    let m = account(params, 0, vec![]);
    assert_eq!(m.validate_value(9, 1).unwrap_err(), RejectReason::BelowMinimum);
    assert!(m.validate_value(10, 1).is_ok());
}

#[test]
fn value_above_maximum_is_rejected() {
    let params = MetricParams {
        max_value: Some(100),
        ..plain_params()
    };
    let m = account(params, 0, vec![]);
    assert_eq!(m.validate_value(101, 1).unwrap_err(), RejectReason::AboveMaximum);
    assert!(m.validate_value(100, 1).is_ok());
}

#[test]
fn bounds_reject_whatever_the_history() {
    let params = MetricParams {
        min_value: Some(0),
        max_value: Some(100),
        max_rate_of_change: Some(1000),
        ..plain_params()
    };
    let m = account(params, 50, vec![(50, 50)]);
    assert_eq!(m.validate_value(-1, 60).unwrap_err(), RejectReason::BelowMinimum);
    assert_eq!(m.validate_value(150, 60).unwrap_err(), RejectReason::AboveMaximum);
}

#[test]
fn rate_of_change_is_exact() {
    let params = MetricParams {
        max_rate_of_change: Some(10),
        ..plain_params()
    };
    // Last point (t=0, v=0): moving to 20 over 2 seconds is exactly rate 10.
    let m = account(params, 0, vec![(0, 0)]);
    assert!(m.validate_value(20, 2).is_ok());
    assert_eq!(m.validate_value(21, 2).unwrap_err(), RejectReason::RateExceeded);
    assert_eq!(m.validate_value(-21, 2).unwrap_err(), RejectReason::RateExceeded);
}

#[test]
fn rate_check_without_history_passes() {
    let params = MetricParams {
        max_rate_of_change: Some(1),
        ..plain_params()
    };
    let m = account(params, 0, vec![]);
    assert!(m.validate_value(1_000_000, 1).is_ok());
}

#[test]
fn zero_time_delta_counts_as_rate_zero() {
    let params = MetricParams {
        max_rate_of_change: Some(1),
        ..plain_params()
    };
    // The stored point is at t=5; validating a sample also at t=5 exercises
    // the explicit zero-delta policy (the sample is checked against the
    // history before the monotonic clock, which here is behind the history).
    let m = account(params, 4, vec![(5, 0)]);
    assert!(m.validate_value(1_000_000, 5).is_ok());
}

#[test]
fn append_keeps_newest_and_evicts_oldest_first() {
    let params = MetricParams {
        retention_period: 3,
        ..plain_params()
    };
    let mut m = account(params, 0, vec![]);
    for t in 1..=5 {
        m.append_data_point(MetricDataPoint { timestamp: t, value: 10 * t }, 5);
    }
    let kept: Vec<i64> = m.data_points.iter().map(|p| p.timestamp).collect();
    assert_eq!(kept, vec![3, 4, 5]);
}

#[test]
fn global_max_data_points_caps_retention() {
    let params = MetricParams {
        retention_period: 10,
        ..plain_params()
    };
    let mut m = account(params, 0, vec![]);
    for t in 1..=5 {
        m.append_data_point(MetricDataPoint { timestamp: t, value: t }, 2);
    }
    let kept: Vec<i64> = m.data_points.iter().map(|p| p.timestamp).collect();
    assert_eq!(kept, vec![4, 5]);
}

#[test]
fn zero_retention_keeps_nothing() {
    let params = MetricParams {
        retention_period: 0,
        ..plain_params()
    };
    let mut m = account(params, 0, vec![]);
    m.append_data_point(MetricDataPoint { timestamp: 1, value: 1 }, 5);
    assert!(m.data_points.is_empty());
}
