//! Alerts: threshold conditions, consecutive-violation tracking, and the
//! debounced firing decision.

use vstd::prelude::*;

use crate::metric::MetricDataPoint;
use crate::metric::abs_diff;

verus! {

/// Kind of condition an alert watches for.
#[derive(Clone, Copy, Debug, PartialEq, Eq, Structural)]
pub enum AlertThresholdType {
    /// Qualifies when the value is strictly above the threshold.
    Above,
    /// Qualifies when the value is strictly below the threshold.
    Below,
    /// Qualifies when the value moved by strictly more than the threshold
    /// since the previous sample; without a previous sample it never
    /// qualifies.
    Change,
    /// Qualifies when the value leaves the closed band between the threshold
    /// and the secondary threshold.
    Range,
}

/// Parameters configuring an alert.
#[derive(Clone, Copy, Debug)]
pub struct AlertConfigParams {
    /// Kind of condition watched for.
    pub threshold_type: AlertThresholdType,
    /// Threshold the condition compares against.
    pub threshold_value: i64,
    /// Upper edge of the safe band; required, and strictly above
    /// `threshold_value`, for range alerts.
    pub secondary_threshold: Option<i64>,
    /// Minimum time between firings, in seconds.
    pub min_trigger_interval: u32,
    /// Number of consecutive qualifying samples needed before firing, at
    /// least 1.
    pub required_violations: u8,
}

/// One configured alert, bound to exactly one metric, with its transient
/// evaluation state.
#[derive(Clone, Copy, Debug)]
pub struct AlertConfig {
    /// Index of the metric this alert watches in the registry.
    pub metric: usize,
    /// Alert configuration parameters.
    pub params: AlertConfigParams,
    /// Whether the alert is evaluated at all.
    pub enabled: bool,
    /// Timestamp of the last firing, 0 for never. Once non-zero it never
    /// decreases.
    pub last_triggered: i64,
    /// Count of back-to-back qualifying samples, reset by any
    /// non-qualifying sample; capped rather than overflowing.
    pub consecutive_violations: u8,
}

/// What evaluating one alert against one admitted sample decided.
#[derive(Clone, Copy, Debug, PartialEq, Eq, Structural)]
pub enum AlertOutcome {
    /// The condition did not qualify, or the streak is still accumulating.
    NoAction,
    /// The alert fired.
    Fired,
    /// The condition was met but the debounce interval has not elapsed.
    Suppressed,
}

/// Whether a sample qualifies as a violation of the alert's condition.
/// `previous` is the newest sample recorded before this one.
pub open spec fn qualifies(
    p: AlertConfigParams,
    value: i64,
    previous: Option<MetricDataPoint>,
) -> bool {
    match p.threshold_type {
        AlertThresholdType::Above => value > p.threshold_value,
        AlertThresholdType::Below => value < p.threshold_value,
        AlertThresholdType::Change => previous matches Some(q)
            && abs_diff(value as int, q.value as int) > p.threshold_value,
        AlertThresholdType::Range => p.secondary_threshold matches Some(hi)
            && (value < p.threshold_value || value > hi),
    }
}

/// The violation streak after one more qualifying sample: one higher, capped
/// at the counter's width.
pub open spec fn bumped_streak(streak: u8) -> u8 {
    if streak < u8::MAX {
        (streak + 1) as u8
    } else {
        u8::MAX
    }
}

/// The alert has fired before and the sample arrives strictly less than
/// `min_trigger_interval` seconds after that firing.
pub open spec fn in_debounce_window(a: AlertConfig, timestamp: i64) -> bool {
    a.last_triggered != 0 && timestamp - a.last_triggered < a.params.min_trigger_interval
}

/// What evaluating `a` against the admitted sample decides. Disabled alerts
/// and non-qualifying samples give no action; a qualifying sample gives no
/// action until the streak reaches `required_violations`, then fires, or is
/// suppressed inside the debounce window.
pub open spec fn evaluation_outcome(
    a: AlertConfig,
    sample: MetricDataPoint,
    previous: Option<MetricDataPoint>,
) -> AlertOutcome {
    if !a.enabled {
        AlertOutcome::NoAction
    } else if !qualifies(a.params, sample.value, previous) {
        AlertOutcome::NoAction
    } else if bumped_streak(a.consecutive_violations) < a.params.required_violations {
        AlertOutcome::NoAction
    } else if in_debounce_window(a, sample.timestamp) {
        AlertOutcome::Suppressed
    } else {
        AlertOutcome::Fired
    }
}

/// The alert's state after evaluating the admitted sample. A disabled alert
/// is untouched; a non-qualifying sample resets the streak; firing resets
/// the streak and records the firing time; suppression keeps the grown
/// streak so the alert can fire once the interval elapses.
pub open spec fn evaluation_next(
    a: AlertConfig,
    sample: MetricDataPoint,
    previous: Option<MetricDataPoint>,
) -> AlertConfig {
    if !a.enabled {
        a
    } else if !qualifies(a.params, sample.value, previous) {
        AlertConfig { consecutive_violations: 0, ..a }
    } else if bumped_streak(a.consecutive_violations) < a.params.required_violations {
        AlertConfig { consecutive_violations: bumped_streak(a.consecutive_violations), ..a }
    } else if in_debounce_window(a, sample.timestamp) {
        AlertConfig { consecutive_violations: bumped_streak(a.consecutive_violations), ..a }
    } else {
        AlertConfig {
            consecutive_violations: 0,
            last_triggered: sample.timestamp,
            ..a
        }
    }
}

impl AlertConfigParams {
    /// Decides whether a sample qualifies as a violation of this condition.
    pub fn sample_qualifies(&self, value: i64, previous: Option<MetricDataPoint>) -> (r: bool)
        ensures
            r == qualifies(*self, value, previous),
    {
        match self.threshold_type {
            AlertThresholdType::Above => value > self.threshold_value,
            AlertThresholdType::Below => value < self.threshold_value,
            AlertThresholdType::Change => match previous {
                Some(q) => {
                    let diff: i128 = value as i128 - q.value as i128;
                    let dv: i128 = if diff >= 0 {
                        diff
                    } else {
                        -diff
                    };
                    dv > self.threshold_value as i128
                },
                None => false,
            },
            AlertThresholdType::Range => match self.secondary_threshold {
                Some(hi) => value < self.threshold_value || value > hi,
                None => false,
            },
        }
    }
}

impl AlertConfig {
    /// Evaluates this alert against an admitted sample, updating the streak
    /// and, on firing, the last-triggered time.
    pub fn evaluate(
        &mut self,
        sample: MetricDataPoint,
        previous: Option<MetricDataPoint>,
    ) -> (outcome: AlertOutcome)
        ensures
            outcome == evaluation_outcome(*old(self), sample, previous),
            *final(self) == evaluation_next(*old(self), sample, previous),
    {
        if !self.enabled {
            return AlertOutcome::NoAction;
        }
        if !self.params.sample_qualifies(sample.value, previous) {
            self.consecutive_violations = 0;
            return AlertOutcome::NoAction;
        }
        let streak: u8 = if self.consecutive_violations < u8::MAX {
            self.consecutive_violations + 1
        } else {
            u8::MAX
        };
        self.consecutive_violations = streak;
        if streak < self.params.required_violations {
            return AlertOutcome::NoAction;
        }
        if self.last_triggered != 0 {
            let since: i128 = sample.timestamp as i128 - self.last_triggered as i128;
            if since < self.params.min_trigger_interval as i128 {
                return AlertOutcome::Suppressed;
            }
        }
        self.consecutive_violations = 0;
        self.last_triggered = sample.timestamp;
        AlertOutcome::Fired
    }
}

} // verus!
