//! The registry: owns every metric and alert, enforces global capacity
//! limits, and routes each incoming sample through validation, history
//! retention, and alert evaluation.

use vstd::prelude::*;
use vstd::string::StrSliceExecFns;

use crate::alert::AlertConfig;
use crate::alert::AlertConfigParams;
use crate::alert::AlertOutcome;
use crate::alert::AlertThresholdType;
use crate::alert::evaluation_next;
use crate::alert::evaluation_outcome;
use crate::errors::MonitoringError;
use crate::errors::RejectReason;
use crate::metric::MetricAccount;
use crate::metric::MetricDataPoint;
use crate::metric::MetricParams;
use crate::metric::admit_decision;
use crate::metric::history_cap;
use crate::metric::metric_wf;
use crate::metric::retained;

verus! {

/// Global configuration parameters for the monitoring system.
#[derive(Clone, Copy, Debug)]
pub struct MonitoringConfig {
    /// Maximum number of metrics that can be tracked, 1 to 100.
    pub max_metrics: u16,
    /// Maximum number of alerts that can be configured, 1 to 50.
    pub max_alerts: u16,
    /// Maximum number of data points stored per metric, 1 to 1000.
    pub max_data_points: u32,
    /// Minimum interval between metric updates in seconds.
    pub min_update_interval: i64,
    /// Whether to enforce rate limiting on metric updates.
    pub rate_limiting_enabled: bool,
}

/// The aggregate owning all monitoring state: the configuration and every
/// metric and alert record. Metrics and alerts are addressed by the index
/// under which they were added; records are disabled, never removed.
#[derive(Debug)]
pub struct MonitoringState {
    /// Global monitoring configuration.
    pub config: MonitoringConfig,
    /// All tracked metrics, in the order they were added.
    pub metrics: Vec<MetricAccount>,
    /// All configured alerts, in the order they were added.
    pub alerts: Vec<AlertConfig>,
}

/// The configuration's bounds are within their allowed ranges.
pub open spec fn config_valid(c: MonitoringConfig) -> bool {
    &&& 0 < c.max_metrics <= 100
    &&& 0 < c.max_alerts <= 50
    &&& 0 < c.max_data_points <= 1000
}

/// Configuration validation: the first bound out of range decides the
/// error.
pub open spec fn config_check(c: MonitoringConfig) -> Result<(), MonitoringError> {
    if !(0 < c.max_metrics <= 100) {
        Err(MonitoringError::InvalidMaxMetrics)
    } else if !(0 < c.max_alerts <= 50) {
        Err(MonitoringError::InvalidMaxAlerts)
    } else if !(0 < c.max_data_points <= 1000) {
        Err(MonitoringError::InvalidMaxDataPoints)
    } else {
        Ok(())
    }
}

/// The alert parameters are consistent: at least one required violation,
/// and a range alert carries a secondary threshold strictly above its
/// threshold.
pub open spec fn alert_params_valid(p: AlertConfigParams) -> bool {
    &&& p.required_violations >= 1
    &&& p.threshold_type is Range ==> (p.secondary_threshold matches Some(hi)
        && hi > p.threshold_value)
}

/// Well-formedness of one alert record within a registry: it is bound to an
/// existing metric, its parameters are consistent, and its last firing is
/// neither negative nor later than its metric's last accepted sample.
pub open spec fn alert_wf(a: AlertConfig, metrics: Seq<MetricAccount>) -> bool {
    &&& a.metric < metrics.len()
    &&& alert_params_valid(a.params)
    &&& 0 <= a.last_triggered <= metrics[a.metric as int].last_updated
}

/// What adding a metric checks, in order: the name length, then the
/// capacity limit.
pub open spec fn add_metric_check(
    s: MonitoringState,
    name: Seq<char>,
) -> Result<(), MonitoringError> {
    if name.len() > 32 {
        Err(MonitoringError::NameTooLong)
    } else if s.metrics.len() >= s.config.max_metrics {
        Err(MonitoringError::CapacityExceeded)
    } else {
        Ok(())
    }
}

/// What configuring an alert checks, in order: the metric exists, the
/// capacity limit, then the parameters' consistency.
pub open spec fn configure_alert_check(
    s: MonitoringState,
    metric: usize,
    p: AlertConfigParams,
) -> Result<(), MonitoringError> {
    if metric >= s.metrics.len() {
        Err(MonitoringError::UnknownMetric)
    } else if s.alerts.len() >= s.config.max_alerts {
        Err(MonitoringError::CapacityExceeded)
    } else if !alert_params_valid(p) {
        Err(MonitoringError::InvalidAlertConfig)
    } else {
        Ok(())
    }
}

impl MonitoringState {
    /// Well-formedness of the whole registry: the configuration is within
    /// its ranges, the capacity limits hold, and every metric and alert
    /// record is well-formed.
    pub open spec fn wf(self) -> bool {
        &&& config_valid(self.config)
        &&& self.metrics.len() <= self.config.max_metrics
        &&& self.alerts.len() <= self.config.max_alerts
        &&& forall|i: int|
            0 <= i < self.metrics.len()
                ==> metric_wf(#[trigger] self.metrics@[i], self.config.max_data_points)
        &&& forall|j: int|
            0 <= j < self.alerts.len() ==> alert_wf(#[trigger] self.alerts@[j], self.metrics@)
    }

    /// Checks this registry's configuration against the allowed ranges,
    /// reporting the first bound out of range.
    pub fn validate_config(&self) -> (r: Result<(), MonitoringError>)
        ensures
            r == config_check(self.config),
    {
        if !(self.config.max_metrics > 0 && self.config.max_metrics <= 100) {
            return Err(MonitoringError::InvalidMaxMetrics);
        }
        if !(self.config.max_alerts > 0 && self.config.max_alerts <= 50) {
            return Err(MonitoringError::InvalidMaxAlerts);
        }
        if !(self.config.max_data_points > 0 && self.config.max_data_points <= 1000) {
            return Err(MonitoringError::InvalidMaxDataPoints);
        }
        Ok(())
    }
}

/// Creates a registry from a configuration, refusing any configuration with
/// a bound out of range. A fresh registry holds no metrics and no alerts.
pub fn initialize_monitoring(config: MonitoringConfig) -> (r: Result<
    MonitoringState,
    MonitoringError,
>)
    ensures
        r is Ok <==> config_valid(config),
        r matches Err(e) ==> config_check(config) == Err::<(), MonitoringError>(e),
        r matches Ok(s) ==> s.config == config && s.metrics.len() == 0 && s.alerts.len() == 0
            && s.wf(),
{
    let state = MonitoringState { config, metrics: Vec::new(), alerts: Vec::new() };
    match state.validate_config() {
        Ok(()) => Ok(state),
        Err(e) => Err(e),
    }
}

/// Adds a metric to the registry. On success the new metric starts enabled,
/// with an empty history and no accepted update, and its index is returned.
/// On failure nothing changes.
pub fn add_metric(state: &mut MonitoringState, name: String, params: MetricParams) -> (r: Result<
    usize,
    MonitoringError,
>)
    requires
        old(state).wf(),
    ensures
        final(state).wf(),
        r is Ok <==> add_metric_check(*old(state), name@) is Ok,
        r matches Err(e) ==> add_metric_check(*old(state), name@) == Err::<(), MonitoringError>(e)
            && *final(state) == *old(state),
        r matches Ok(id) ==> {
            &&& id == old(state).metrics.len()
            &&& final(state).metrics.len() == old(state).metrics.len() + 1
            &&& forall|i: int|
                0 <= i < old(state).metrics.len()
                    ==> #[trigger] final(state).metrics@[i] == old(state).metrics@[i]
            &&& final(state).metrics@.last().name == name
            &&& final(state).metrics@.last().params == params
            &&& final(state).metrics@.last().enabled == true
            &&& final(state).metrics@.last().last_updated == 0
            &&& final(state).metrics@.last().data_points.len() == 0
            &&& final(state).alerts == old(state).alerts
            &&& final(state).config == old(state).config
        },
{
    if name.as_str().unicode_len() > 32 {
        return Err(MonitoringError::NameTooLong);
    }
    if state.metrics.len() >= state.config.max_metrics as usize {
        return Err(MonitoringError::CapacityExceeded);
    }
    let id = state.metrics.len();
    let account = MetricAccount {
        name,
        params,
        enabled: true,
        last_updated: 0,
        data_points: Vec::new(),
    };
    state.metrics.push(account);
    Ok(id)
}

/// Configures an alert bound to the metric at `metric`. On success the new
/// alert starts enabled, never triggered, with no violation streak, and its
/// index is returned. On failure nothing changes.
pub fn configure_alert(
    state: &mut MonitoringState,
    metric: usize,
    params: AlertConfigParams,
) -> (r: Result<usize, MonitoringError>)
    requires
        old(state).wf(),
    ensures
        final(state).wf(),
        r is Ok <==> configure_alert_check(*old(state), metric, params) is Ok,
        r matches Err(e) ==> configure_alert_check(*old(state), metric, params) == Err::<
            (),
            MonitoringError,
        >(e) && *final(state) == *old(state),
        r matches Ok(id) ==> {
            &&& id == old(state).alerts.len()
            &&& final(state).alerts.len() == old(state).alerts.len() + 1
            &&& forall|j: int|
                0 <= j < old(state).alerts.len()
                    ==> #[trigger] final(state).alerts@[j] == old(state).alerts@[j]
            &&& final(state).alerts@.last().metric == metric
            &&& final(state).alerts@.last().params == params
            &&& final(state).alerts@.last().enabled == true
            &&& final(state).alerts@.last().last_triggered == 0
            &&& final(state).alerts@.last().consecutive_violations == 0
            &&& final(state).metrics == old(state).metrics
            &&& final(state).config == old(state).config
        },
{
    if metric >= state.metrics.len() {
        return Err(MonitoringError::UnknownMetric);
    }
    if state.alerts.len() >= state.config.max_alerts as usize {
        return Err(MonitoringError::CapacityExceeded);
    }
    let params_ok = match params.threshold_type {
        AlertThresholdType::Range => match params.secondary_threshold {
            Some(hi) => hi > params.threshold_value,
            None => false,
        },
        _ => true,
    };
    if params.required_violations < 1 || !params_ok {
        return Err(MonitoringError::InvalidAlertConfig);
    }
    let id = state.alerts.len();
    let alert = AlertConfig {
        metric,
        params,
        enabled: true,
        last_triggered: 0,
        consecutive_violations: 0,
    };
    state.alerts.push(alert);
    Ok(id)
}

/// The decision for one alert after one accepted sample.
#[derive(Clone, Copy, Debug, PartialEq, Eq, Structural)]
pub struct AlertEvaluation {
    /// Index of the evaluated alert.
    pub alert_id: usize,
    /// What the evaluation decided.
    pub outcome: AlertOutcome,
}

/// What one accepted ingest reports: the decision for every alert bound to
/// the ingested metric, in alert-registration order.
#[derive(Debug)]
pub struct IngestOutcome {
    /// One entry per alert bound to the metric, in registration order.
    pub evaluations: Vec<AlertEvaluation>,
}

/// The evaluations an accepted sample on the metric at `metric_id` must
/// report: one per alert bound to that metric, in registration order, each
/// carrying that alert's evaluation outcome.
pub open spec fn expected_evaluations(
    alerts: Seq<AlertConfig>,
    metric_id: usize,
    sample: MetricDataPoint,
    previous: Option<MetricDataPoint>,
) -> Seq<AlertEvaluation>
    decreases alerts.len(),
{
    if alerts.len() == 0 {
        Seq::empty()
    } else {
        let rest = expected_evaluations(alerts.drop_last(), metric_id, sample, previous);
        if alerts.last().metric == metric_id {
            rest.push(
                AlertEvaluation {
                    alert_id: (alerts.len() - 1) as usize,
                    outcome: evaluation_outcome(alerts.last(), sample, previous),
                },
            )
        } else {
            rest
        }
    }
}

/// How one accepted sample changes the registry: the target metric's clock
/// advances to the sample's timestamp, its history is extended (when it
/// stores history) under its retention cap, every alert bound to the metric
/// advances by one evaluation step, and everything else is untouched.
pub open spec fn ingest_accepts(
    pre: MonitoringState,
    post: MonitoringState,
    metric_id: usize,
    timestamp: i64,
    value: i64,
) -> bool {
    let om = pre.metrics@[metric_id as int];
    let nm = post.metrics@[metric_id as int];
    let sample = MetricDataPoint { timestamp, value };
    let previous = om.previous_point();
    &&& post.config == pre.config
    &&& post.metrics.len() == pre.metrics.len()
    &&& forall|i: int|
        0 <= i < pre.metrics.len() && i != metric_id
            ==> #[trigger] post.metrics@[i] == pre.metrics@[i]
    &&& nm.name == om.name
    &&& nm.params == om.params
    &&& nm.enabled == om.enabled
    &&& nm.last_updated == timestamp
    &&& nm.data_points@ == (if om.params.store_history {
        retained(om.data_points@.push(sample), history_cap(om.params, pre.config.max_data_points))
    } else {
        om.data_points@
    })
    &&& post.alerts.len() == pre.alerts.len()
    &&& forall|j: int|
        0 <= j < pre.alerts.len() ==> #[trigger] post.alerts@[j] == (if pre.alerts@[j].metric
            == metric_id {
            evaluation_next(pre.alerts@[j], sample, previous)
        } else {
            pre.alerts@[j]
        })
}

/// The single entry point for a new sample. The sample is validated against
/// the metric's rules; a rejection reports its reason and leaves the whole
/// registry unchanged. An accepted sample advances the metric's clock,
/// extends its bounded history when it stores one, evaluates every alert
/// bound to the metric in registration order, and reports each alert's
/// decision.
pub fn ingest(
    state: &mut MonitoringState,
    metric_id: usize,
    timestamp: i64,
    value: i64,
) -> (r: Result<IngestOutcome, RejectReason>)
    requires
        old(state).wf(),
        metric_id < old(state).metrics.len(),
    ensures
        final(state).wf(),
        r is Ok <==> admit_decision(old(state).metrics@[metric_id as int], value, timestamp)
            is Ok,
        r matches Err(e) ==> admit_decision(old(state).metrics@[metric_id as int], value, timestamp)
            == Err::<(), RejectReason>(e) && *final(state) == *old(state),
        r is Ok ==> timestamp > old(state).metrics@[metric_id as int].last_updated,
        r is Ok ==> ingest_accepts(*old(state), *final(state), metric_id, timestamp, value),
        r matches Ok(out) ==> out.evaluations@ == expected_evaluations(
            old(state).alerts@,
            metric_id,
            (MetricDataPoint { timestamp, value }),
            old(state).metrics@[metric_id as int].previous_point(),
        ),
{
    let ghost pre = *state;
    if let Err(e) = state.metrics[metric_id].validate_value(value, timestamp) {
        return Err(e);
    }
    let sample = MetricDataPoint { timestamp, value };
    let history_len = state.metrics[metric_id].data_points.len();
    let previous: Option<MetricDataPoint> = if history_len > 0 {
        Some(state.metrics[metric_id].data_points[history_len - 1])
    } else {
        None
    };
    state.metrics[metric_id].last_updated = timestamp;
    let max_data_points = state.config.max_data_points;
    if state.metrics[metric_id].params.store_history {
        state.metrics[metric_id].append_data_point(sample, max_data_points);
    }
    let ghost recorded = *state;
    let mut evaluations: Vec<AlertEvaluation> = Vec::new();
    let mut j: usize = 0;
    while j < state.alerts.len()
        invariant
            pre.wf(),
            metric_id < pre.metrics.len(),
            j <= state.alerts.len(),
            state.metrics@ == recorded.metrics@,
            state.config == recorded.config,
            state.alerts.len() == pre.alerts.len(),
            recorded.alerts@ == pre.alerts@,
            forall|k: int| j <= k < pre.alerts.len() ==> #[trigger] state.alerts@[k] == pre.alerts@[k],
            forall|k: int|
                0 <= k < j ==> #[trigger] state.alerts@[k] == (if pre.alerts@[k].metric
                    == metric_id {
                    evaluation_next(pre.alerts@[k], sample, previous)
                } else {
                    pre.alerts@[k]
                }),
            evaluations@ == expected_evaluations(
                pre.alerts@.take(j as int),
                metric_id,
                sample,
                previous,
            ),
        decreases state.alerts.len() - j,
    {
        let bound = state.alerts[j].metric;
        if bound == metric_id {
            let outcome = state.alerts[j].evaluate(sample, previous);
            evaluations.push(AlertEvaluation { alert_id: j, outcome });
        }
        proof {
            assert(pre.alerts@.take(j as int + 1).drop_last() =~= pre.alerts@.take(j as int));
            assert(pre.alerts@.take(j as int + 1).last() == pre.alerts@[j as int]);
        }
        j += 1;
    }
    proof {
        assert(pre.alerts@.take(pre.alerts.len() as int) =~= pre.alerts@);
        lemma_ingest_preserves_wf(pre, *state, metric_id, timestamp, value);
    }
    Ok(IngestOutcome { evaluations })
}

/// An accepted ingest preserves the registry's well-formedness.
proof fn lemma_ingest_preserves_wf(
    pre: MonitoringState,
    post: MonitoringState,
    metric_id: usize,
    timestamp: i64,
    value: i64,
)
    requires
        pre.wf(),
        metric_id < pre.metrics.len(),
        admit_decision(pre.metrics@[metric_id as int], value, timestamp) is Ok,
        ingest_accepts(pre, post, metric_id, timestamp, value),
    ensures
        post.wf(),
{
    let om = pre.metrics@[metric_id as int];
    let nm = post.metrics@[metric_id as int];
    let sample = MetricDataPoint { timestamp, value };
    assert forall|i: int| 0 <= i < post.metrics.len() implies metric_wf(
        #[trigger] post.metrics@[i],
        post.config.max_data_points,
    ) by {
        if i != metric_id {
            assert(post.metrics@[i] == pre.metrics@[i]);
        } else {
            let cap = history_cap(om.params, pre.config.max_data_points);
            let grown = om.data_points@.push(sample);
            assert(forall|p: int|
                0 <= p < grown.len() ==> #[trigger] grown[p].timestamp <= timestamp);
            assert(forall|p: int, q: int|
                0 <= p < q < grown.len()
                    ==> #[trigger] grown[p].timestamp < #[trigger] grown[q].timestamp);
            if om.params.store_history && grown.len() > cap {
                assert(forall|p: int|
                    0 <= p < nm.data_points@.len() ==> #[trigger] nm.data_points@[p]
                        == grown[grown.len() - cap + p]);
            }
        }
    }
    assert forall|j: int| 0 <= j < post.alerts.len() implies alert_wf(
        #[trigger] post.alerts@[j],
        post.metrics@,
    ) by {
        let oa = pre.alerts@[j];
        assert(alert_wf(oa, pre.metrics@));
        if oa.metric != metric_id {
            assert(post.metrics@[oa.metric as int] == pre.metrics@[oa.metric as int]);
        }
    }
}

} // verus!
