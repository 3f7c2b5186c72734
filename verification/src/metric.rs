//! Metrics: configured rules, recorded samples, sample admission, and the
//! bounded oldest-first history buffer.

use vstd::prelude::*;

use crate::errors::RejectReason;

verus! {

/// One recorded observation: a value at a point in time (unix seconds).
#[derive(Clone, Copy, Debug, PartialEq, Eq, Structural)]
pub struct MetricDataPoint {
    /// Unix timestamp when the data point was recorded.
    pub timestamp: i64,
    /// The recorded value.
    pub value: i64,
}

/// Rules configured for a metric when it is created.
#[derive(Clone, Copy, Debug)]
pub struct MetricParams {
    /// Optional minimum allowed value.
    pub min_value: Option<i64>,
    /// Optional maximum allowed value.
    pub max_value: Option<i64>,
    /// Optional maximum rate of change (units per second).
    pub max_rate_of_change: Option<u32>,
    /// Whether to store historical data points.
    pub store_history: bool,
    /// Number of data points to retain (up to the global maximum).
    pub retention_period: u32,
}

/// One tracked metric: identity, rules, and mutable state. History is kept
/// oldest-first and is only mutated by accepted ingests.
#[derive(Debug)]
pub struct MetricAccount {
    /// Name of the metric, at most 32 characters.
    pub name: String,
    /// Metric-specific rules.
    pub params: MetricParams,
    /// Whether the metric currently accepts samples.
    pub enabled: bool,
    /// Timestamp of the last accepted sample, 0 before any.
    pub last_updated: i64,
    /// Recorded samples, oldest first.
    pub data_points: Vec<MetricDataPoint>,
}

/// The absolute difference of two integers.
pub open spec fn abs_diff(a: int, b: int) -> int {
    if a >= b {
        a - b
    } else {
        b - a
    }
}

/// The sample changes too fast relative to the newest stored data point:
/// the exact rational rate `|value - last.value| / (timestamp -
/// last.timestamp)` exceeds `max_rate`. A non-positive time delta counts as
/// rate 0 (never exceeding), a deliberate policy that avoids dividing by
/// zero.
pub open spec fn rate_exceeds(
    last: MetricDataPoint,
    value: i64,
    timestamp: i64,
    max_rate: u32,
) -> bool {
    let dt = timestamp - last.timestamp;
    let dv = abs_diff(value as int, last.value as int);
    dt > 0 && dv > max_rate * dt
}

/// Admission decision for one sample against one metric, checked in this
/// order: enabled, strictly increasing timestamp, lower bound, upper bound,
/// rate of change. `Ok` means the sample may be recorded.
pub open spec fn admit_decision(
    m: MetricAccount,
    value: i64,
    timestamp: i64,
) -> Result<(), RejectReason> {
    if !m.enabled {
        Err(RejectReason::Disabled)
    } else if timestamp <= m.last_updated {
        Err(RejectReason::NonMonotonicTimestamp)
    } else if m.params.min_value matches Some(mn) && value < mn {
        Err(RejectReason::BelowMinimum)
    } else if m.params.max_value matches Some(mx) && value > mx {
        Err(RejectReason::AboveMaximum)
    } else if m.params.max_rate_of_change matches Some(mr) && m.data_points.len() > 0
        && rate_exceeds(m.data_points@.last(), value, timestamp, mr) {
        Err(RejectReason::RateExceeded)
    } else {
        Ok(())
    }
}

/// Number of samples a metric may retain: its own retention period, but
/// never more than the global `max_data_points`.
pub open spec fn history_cap(params: MetricParams, max_data_points: u32) -> int {
    if params.retention_period <= max_data_points {
        params.retention_period as int
    } else {
        max_data_points as int
    }
}

/// What a bounded FIFO keeps of `history` under the bound `cap`: the whole
/// sequence if it fits, otherwise the newest `cap` entries.
pub open spec fn retained(history: Seq<MetricDataPoint>, cap: int) -> Seq<MetricDataPoint> {
    if history.len() <= cap {
        history
    } else {
        history.skip(history.len() - cap)
    }
}

/// Well-formedness of one metric record under the global history bound:
/// the history is within its cap, its timestamps strictly increase, none is
/// later than `last_updated`, `last_updated` is non-negative, and the name
/// is within the length limit.
pub open spec fn metric_wf(m: MetricAccount, max_data_points: u32) -> bool {
    &&& m.data_points.len() <= history_cap(m.params, max_data_points)
    &&& forall|i: int, j: int|
        0 <= i < j < m.data_points.len()
            ==> #[trigger] m.data_points@[i].timestamp < #[trigger] m.data_points@[j].timestamp
    &&& forall|i: int|
        0 <= i < m.data_points.len() ==> #[trigger] m.data_points@[i].timestamp <= m.last_updated
    &&& m.last_updated >= 0
    &&& m.name@.len() <= 32
}

impl MetricAccount {
    /// The newest stored data point, if any: what rate-of-change and
    /// change-alert checks compare a new sample against.
    pub open spec fn previous_point(self) -> Option<MetricDataPoint> {
        if self.data_points.len() > 0 {
            Some(self.data_points@.last())
        } else {
            None
        }
    }

    /// Decides whether a sample may be recorded for this metric, without
    /// mutating anything. Returns exactly the reason of the first rule the
    /// sample breaks, in the order given by `admit_decision`.
    pub fn validate_value(&self, value: i64, timestamp: i64) -> (r: Result<(), RejectReason>)
        ensures
            r == admit_decision(*self, value, timestamp),
    {
        if !self.enabled {
            return Err(RejectReason::Disabled);
        }
        if timestamp <= self.last_updated {
            return Err(RejectReason::NonMonotonicTimestamp);
        }
        if let Some(mn) = self.params.min_value {
            if value < mn {
                return Err(RejectReason::BelowMinimum);
            }
        }
        if let Some(mx) = self.params.max_value {
            if value > mx {
                return Err(RejectReason::AboveMaximum);
            }
        }
        if let Some(mr) = self.params.max_rate_of_change {
            if self.data_points.len() > 0 {
                let last = self.data_points[self.data_points.len() - 1];
                let dt: i128 = timestamp as i128 - last.timestamp as i128;
                let diff: i128 = value as i128 - last.value as i128;
                let dv: i128 = if diff >= 0 {
                    diff
                } else {
                    -diff
                };
                if dt > 0 {
                    proof {
                        assert(0 <= (mr as i128) * dt <= (u32::MAX as i128) * dt)
                            by (nonlinear_arith)
                            requires
                                0 <= (mr as i128) <= (u32::MAX as i128),
                                dt > 0,
                        ;
                        assert((u32::MAX as i128) * dt < i128::MAX) by (nonlinear_arith)
                            requires
                                0 < dt <= 0x2_0000_0000_0000_0000i128,
                        ;
                    }
                    if dv > (mr as i128) * dt {
                        return Err(RejectReason::RateExceeded);
                    }
                }
            }
        }
        Ok(())
    }

    /// Appends one sample to the history and evicts oldest-first until the
    /// retention bound is met. Never fails: capacity is enforced by
    /// truncation. Only the history changes.
    pub fn append_data_point(&mut self, point: MetricDataPoint, max_data_points: u32)
        ensures
            final(self).data_points@ == retained(
                old(self).data_points@.push(point),
                history_cap(old(self).params, max_data_points),
            ),
            final(self).name == old(self).name,
            final(self).params == old(self).params,
            final(self).enabled == old(self).enabled,
            final(self).last_updated == old(self).last_updated,
    {
        let cap: u32 = if self.params.retention_period <= max_data_points {
            self.params.retention_period
        } else {
            max_data_points
        };
        self.data_points.push(point);
        let ghost full: Seq<MetricDataPoint> = self.data_points@;
        while self.data_points.len() > cap as usize
            invariant
                self.name == old(self).name,
                self.params == old(self).params,
                self.enabled == old(self).enabled,
                self.last_updated == old(self).last_updated,
                self.data_points@.len() <= full.len(),
                self.data_points@.len() >= cap as int || self.data_points@.len() == full.len(),
                self.data_points@ == full.skip(full.len() - self.data_points@.len()),
            decreases self.data_points@.len(),
        {
            let ghost before: Seq<MetricDataPoint> = self.data_points@;
            self.data_points.remove(0);
            assert(self.data_points@ =~= full.skip(full.len() - self.data_points@.len())) by {
                assert(self.data_points@ =~= before.skip(1));
            }
        }
        assert(self.data_points@ =~= retained(full, history_cap(self.params, max_data_points)));
    }
}

} // verus!
