//! Laws of the engine, stated and proved once over the contracts: history
//! bounds, timestamp monotonicity, unconditional bound rejection, debounce,
//! and violation-streak behaviour.

use vstd::prelude::*;

use crate::alert::AlertConfig;
use crate::alert::AlertOutcome;
use crate::alert::evaluation_next;
use crate::alert::evaluation_outcome;
use crate::alert::qualifies;
use crate::metric::MetricAccount;
use crate::metric::MetricDataPoint;
use crate::metric::admit_decision;
use crate::registry::MonitoringState;

verus! {

/// The alert state after evaluating each sample of a run in turn. Each step
/// pairs the admitted sample with the data point it is compared against.
pub open spec fn run_next(
    a: AlertConfig,
    steps: Seq<(MetricDataPoint, Option<MetricDataPoint>)>,
) -> AlertConfig
    decreases steps.len(),
{
    if steps.len() == 0 {
        a
    } else {
        evaluation_next(run_next(a, steps.drop_last()), steps.last().0, steps.last().1)
    }
}

/// Some evaluation in the run fired.
pub open spec fn run_fires(
    a: AlertConfig,
    steps: Seq<(MetricDataPoint, Option<MetricDataPoint>)>,
) -> bool
    decreases steps.len(),
{
    if steps.len() == 0 {
        false
    } else {
        run_fires(a, steps.drop_last()) || evaluation_outcome(
            run_next(a, steps.drop_last()),
            steps.last().0,
            steps.last().1,
        ) == AlertOutcome::Fired
    }
}

/// History length invariant: in every well-formed registry — and every
/// operation of the registry ensures well-formedness — each metric holds at
/// most `min(retention_period, max_data_points)` samples.
pub proof fn lemma_history_length_bound(s: MonitoringState, i: int)
    requires
        s.wf(),
        0 <= i < s.metrics.len(),
    ensures
        s.metrics@[i].data_points.len() <= s.metrics@[i].params.retention_period,
        s.metrics@[i].data_points.len() <= s.config.max_data_points,
{
}

/// Monotonicity of accepted samples: in every well-formed registry each
/// metric's stored history is strictly increasing in time, and no stored
/// sample is later than the metric's last accepted update.
pub proof fn lemma_history_timestamps_increase(s: MonitoringState, i: int, p: int, q: int)
    requires
        s.wf(),
        0 <= i < s.metrics.len(),
        0 <= p < q < s.metrics@[i].data_points.len(),
    ensures
        s.metrics@[i].data_points@[p].timestamp < s.metrics@[i].data_points@[q].timestamp,
        s.metrics@[i].data_points@[q].timestamp <= s.metrics@[i].last_updated,
{
}

/// A sample whose timestamp is not strictly later than the metric's last
/// accepted update is never admitted. Together with `ingest`'s contract —
/// a rejection leaves the registry exactly as it was — this makes replaying
/// a sample a rejected no-op.
pub proof fn lemma_stale_sample_rejected(m: MetricAccount, value: i64, timestamp: i64)
    requires
        timestamp <= m.last_updated,
    ensures
        admit_decision(m, value, timestamp) is Err,
{
}

/// Bounds are unconditional: a value below the configured minimum or above
/// the configured maximum is never admitted, whatever the history or rate
/// state.
pub proof fn lemma_out_of_bounds_rejected(m: MetricAccount, value: i64, timestamp: i64)
    requires
        (m.params.min_value matches Some(mn) && value < mn) || (m.params.max_value matches Some(
            mx,
        ) && value > mx),
    ensures
        admit_decision(m, value, timestamp) is Err,
{
}

/// Debounce, one step: while the last firing is recorded and the sample
/// arrives strictly less than `min_trigger_interval` seconds after it, the
/// alert cannot fire, however the condition qualifies.
pub proof fn lemma_debounce_step(
    a: AlertConfig,
    sample: MetricDataPoint,
    previous: Option<MetricDataPoint>,
)
    requires
        a.last_triggered != 0,
        sample.timestamp - a.last_triggered < a.params.min_trigger_interval,
    ensures
        evaluation_outcome(a, sample, previous) != AlertOutcome::Fired,
        evaluation_next(a, sample, previous).last_triggered == a.last_triggered,
{
}

/// Debounce, whole runs: an alert that fired at `t0` cannot fire again on
/// any run of samples that all arrive before `t0 + min_trigger_interval`,
/// and its recorded firing time stays `t0` throughout.
pub proof fn lemma_debounce_run(
    a: AlertConfig,
    steps: Seq<(MetricDataPoint, Option<MetricDataPoint>)>,
    t0: i64,
)
    requires
        a.last_triggered == t0,
        t0 != 0,
        forall|k: int|
            0 <= k < steps.len() ==> #[trigger] steps[k].0.timestamp - t0
                < a.params.min_trigger_interval,
    ensures
        !run_fires(a, steps),
        run_next(a, steps).last_triggered == t0,
        run_next(a, steps).params == a.params,
    decreases steps.len(),
{
    if steps.len() > 0 {
        lemma_debounce_run(a, steps.drop_last(), t0);
        let st = run_next(a, steps.drop_last());
        assert(steps[steps.len() - 1].0.timestamp - t0 < a.params.min_trigger_interval);
        lemma_debounce_step(st, steps.last().0, steps.last().1);
    }
}

/// Violation streak reset, one step: a non-qualifying sample gives no
/// action, and for an enabled alert it resets the streak to zero.
pub proof fn lemma_streak_reset_step(
    a: AlertConfig,
    sample: MetricDataPoint,
    previous: Option<MetricDataPoint>,
)
    requires
        !qualifies(a.params, sample.value, previous),
    ensures
        evaluation_outcome(a, sample, previous) == AlertOutcome::NoAction,
        a.enabled ==> evaluation_next(a, sample, previous).consecutive_violations == 0,
{
}

/// Accumulation: as long as the streak stays short of
/// `required_violations`, qualifying samples only count up — none fires,
/// and the streak grows by exactly one per sample.
pub proof fn lemma_accumulation(
    a: AlertConfig,
    steps: Seq<(MetricDataPoint, Option<MetricDataPoint>)>,
)
    requires
        a.enabled,
        forall|k: int|
            0 <= k < steps.len() ==> qualifies(a.params, #[trigger] steps[k].0.value, steps[k].1),
        a.consecutive_violations + steps.len() < a.params.required_violations,
    ensures
        !run_fires(a, steps),
        run_next(a, steps).consecutive_violations == a.consecutive_violations + steps.len(),
        run_next(a, steps).params == a.params,
        run_next(a, steps).enabled,
        run_next(a, steps).last_triggered == a.last_triggered,
    decreases steps.len(),
{
    if steps.len() > 0 {
        lemma_accumulation(a, steps.drop_last());
        let st = run_next(a, steps.drop_last());
        assert(qualifies(a.params, steps[steps.len() - 1].0.value, steps[steps.len() - 1].1));
    }
}

/// Violation streak reset, whole runs: `required_violations - 1` (or fewer)
/// qualifying samples followed by a single non-qualifying sample never fire
/// the alert, and leave its streak at zero.
pub proof fn lemma_short_streak_never_fires(
    a: AlertConfig,
    steps: Seq<(MetricDataPoint, Option<MetricDataPoint>)>,
    last_sample: MetricDataPoint,
    last_previous: Option<MetricDataPoint>,
)
    requires
        a.enabled,
        a.consecutive_violations == 0,
        forall|k: int|
            0 <= k < steps.len() ==> qualifies(a.params, #[trigger] steps[k].0.value, steps[k].1),
        steps.len() < a.params.required_violations,
        !qualifies(a.params, last_sample.value, last_previous),
    ensures
        !run_fires(a, steps.push((last_sample, last_previous))),
        run_next(a, steps.push((last_sample, last_previous))).consecutive_violations == 0,
{
    lemma_accumulation(a, steps);
    let whole = steps.push((last_sample, last_previous));
    assert(whole.drop_last() =~= steps);
    lemma_streak_reset_step(run_next(a, steps), last_sample, last_previous);
}

} // verus!
