//! Error taxonomy: configuration-time refusals and per-sample rejections.

use vstd::prelude::*;

verus! {

/// Why a configuration request (initialization, adding a metric, configuring
/// an alert) was refused. A refusal never mutates any state.
#[derive(Clone, Copy, Debug, PartialEq, Eq, Structural)]
pub enum MonitoringError {
    /// `max_metrics` is outside `1..=100`.
    InvalidMaxMetrics,
    /// `max_alerts` is outside `1..=50`.
    InvalidMaxAlerts,
    /// `max_data_points` is outside `1..=1000`.
    InvalidMaxDataPoints,
    /// A metric name is longer than 32 characters.
    NameTooLong,
    /// The registry already holds as many metrics (or alerts) as its
    /// configuration allows.
    CapacityExceeded,
    /// An alert names a metric the registry does not hold.
    UnknownMetric,
    /// Alert parameters are inconsistent: no violation count, or a range
    /// alert without a proper band.
    InvalidAlertConfig,
}

/// Why a sample was not admitted. A rejected sample leaves the metric, its
/// history, and every alert unchanged.
#[derive(Clone, Copy, Debug, PartialEq, Eq, Structural)]
pub enum RejectReason {
    /// The metric is disabled.
    Disabled,
    /// The sample's timestamp is not strictly later than the metric's last
    /// accepted update.
    NonMonotonicTimestamp,
    /// The value is below the configured minimum.
    BelowMinimum,
    /// The value is above the configured maximum.
    AboveMaximum,
    /// The value changed faster than the configured rate limit allows.
    RateExceeded,
}

} // verus!
