use vstd::prelude::*;
use vstd::string::StringExecFns;
use crate::config::AlertThresholds;
use crate::db::models::{Alert, AlertSeverity, AlertView, MetricsSnapshot, MetricsSnapshotView};
use crate::models::metrics::{clone_processes, ServerMetrics, ServerMetricsView};
use crate::monitoring::collector::{measure, sample_of, SystemReading};
use crate::text::{hundredths, owned, push_hundredths};

verus! {

/// A byte counter as the history stores it: a signed 64-bit count, capped at
/// the largest one.
pub open spec fn stored_count(bytes: u64) -> i64 {
    if bytes > i64::MAX as u64 {
        i64::MAX
    } else {
        bytes as i64
    }
}

fn to_stored_count(bytes: u64) -> (r: i64)
    ensures
        r == stored_count(bytes),
{
    if bytes > i64::MAX as u64 {
        i64::MAX
    } else {
        bytes as i64
    }
}

/// The history record of a sample of `server_id` persisted at `now`. The
/// store assigns the id, so it is zero here.
pub open spec fn snapshot_view(
    server_id: Seq<char>,
    sample: ServerMetricsView,
    now: i64,
) -> MetricsSnapshotView {
    MetricsSnapshotView {
        id: 0,
        server_id,
        cpu_usage: sample.cpu_usage,
        memory_usage: sample.memory_usage,
        disk_usage: sample.disk_usage,
        network_rx: stored_count(sample.network_rx),
        network_tx: stored_count(sample.network_tx),
        processes: sample.processes,
        timestamp: now,
    }
}

/// Converts a sample into the record that goes into the history.
pub fn snapshot_of(server_id: &str, sample: &ServerMetrics, now: i64) -> (r: MetricsSnapshot)
    ensures
        r@ == snapshot_view(server_id@, sample@, now),
{
    MetricsSnapshot {
        id: 0,
        server_id: owned(server_id),
        cpu_usage: sample.cpu_usage,
        memory_usage: sample.memory_usage,
        disk_usage: sample.disk_usage,
        network_rx: to_stored_count(sample.network_rx),
        network_tx: to_stored_count(sample.network_tx),
        processes: clone_processes(&sample.processes),
        timestamp: now,
    }
}

/// Samples and converts in one step: the record of what `reading` amounts to.
pub fn collect_metrics(server_id: &str, reading: &SystemReading, now: i64) -> (r: MetricsSnapshot)
    ensures
        exists|sample: ServerMetrics| #[trigger]
            sample_of(*reading, now, sample) && r@ == snapshot_view(server_id@, sample@, now),
{
    let sample = measure(reading, now);
    snapshot_of(server_id, &sample, now)
}

/// The text of a critical alert: the metric, its value and the threshold it
/// exceeds, both as percentages with two decimal places.
pub open spec fn alert_message(metric: Seq<char>, value: u32, limit: u32) -> Seq<char> {
    metric + " at "@ + hundredths(value as nat) + "% exceeds the critical threshold of "@
        + hundredths(limit as nat) + "%"@
}

/// The critical alert on `metric` of a snapshot.
pub open spec fn critical_alert(
    snapshot: MetricsSnapshotView,
    metric: Seq<char>,
    value: u32,
    limit: u32,
) -> AlertView {
    AlertView {
        id: 0,
        server_id: snapshot.server_id,
        alert_type: metric,
        severity: AlertSeverity::Critical,
        message: alert_message(metric, value, limit),
        created_at: snapshot.timestamp,
        acknowledged_at: None,
        acknowledged_by: None,
    }
}

/// The alert that one figure gives rise to: one critical alert when the
/// value is strictly above the threshold, none at or below it.
pub open spec fn alert_on(
    snapshot: MetricsSnapshotView,
    metric: Seq<char>,
    value: u32,
    limit: u32,
) -> Seq<AlertView> {
    if value > limit {
        seq![critical_alert(snapshot, metric, value, limit)]
    } else {
        Seq::empty()
    }
}

/// The alerts that a snapshot gives rise to, in the order CPU, memory, disk.
pub open spec fn alerts_for(snapshot: MetricsSnapshotView, thresholds: AlertThresholds) -> Seq<
    AlertView,
> {
    alert_on(snapshot, "cpu_usage"@, snapshot.cpu_usage, thresholds.cpu_critical) + alert_on(
        snapshot,
        "memory_usage"@,
        snapshot.memory_usage,
        thresholds.memory_critical,
    ) + alert_on(snapshot, "disk_usage"@, snapshot.disk_usage, thresholds.disk_critical)
}

/// The contents of a list of alerts.
pub open spec fn alert_views(alerts: Seq<Alert>) -> Seq<AlertView> {
    alerts.map_values(|a: Alert| a@)
}

fn raise(snapshot: &MetricsSnapshot, metric: &str, value: u32, limit: u32) -> (r: Alert)
    ensures
        r@ == critical_alert(snapshot@, metric@, value, limit),
{
    let mut message: String = owned(metric);
    message.append(" at ");
    push_hundredths(&mut message, value as u64);
    message.append("% exceeds the critical threshold of ");
    push_hundredths(&mut message, limit as u64);
    message.append("%");
    Alert {
        id: 0,
        server_id: snapshot.server_id.clone(),
        alert_type: owned(metric),
        severity: AlertSeverity::Critical,
        message,
        created_at: snapshot.timestamp,
        acknowledged_at: None,
        acknowledged_by: None,
    }
}

fn check_figure(
    alerts: &mut Vec<Alert>,
    snapshot: &MetricsSnapshot,
    metric: &str,
    value: u32,
    limit: u32,
)
    ensures
        alert_views(final(alerts)@) == alert_views(old(alerts)@) + alert_on(
            snapshot@,
            metric@,
            value,
            limit,
        ),
{
    if value > limit {
        let alert = raise(snapshot, metric, value, limit);
        alerts.push(alert);
        assert(alert_views(alerts@) =~= alert_views(old(alerts)@) + alert_on(
            snapshot@,
            metric@,
            value,
            limit,
        ));
    } else {
        assert(alert_views(alerts@) =~= alert_views(old(alerts)@) + alert_on(
            snapshot@,
            metric@,
            value,
            limit,
        ));
    }
}

/// Holds a snapshot against the critical thresholds and returns the alerts
/// to create: one for each of CPU, memory and disk usage that lies strictly
/// above its threshold.
pub fn evaluate_alerts(snapshot: &MetricsSnapshot, thresholds: &AlertThresholds) -> (r: Vec<Alert>)
    ensures
        alert_views(r@) == alerts_for(snapshot@, *thresholds),
{
    let mut alerts: Vec<Alert> = Vec::new();
    assert(alert_views(alerts@) =~= Seq::empty());
    check_figure(&mut alerts, snapshot, "cpu_usage", snapshot.cpu_usage, thresholds.cpu_critical);
    check_figure(
        &mut alerts,
        snapshot,
        "memory_usage",
        snapshot.memory_usage,
        thresholds.memory_critical,
    );
    check_figure(&mut alerts, snapshot, "disk_usage", snapshot.disk_usage, thresholds.disk_critical);
    assert(alert_views(alerts@) =~= alerts_for(snapshot@, *thresholds));
    alerts
}

/// A figure raises an alert exactly when it is strictly above its threshold:
/// at the threshold and below it nothing is raised, one step above it one
/// critical alert is.
pub proof fn lemma_alert_exactly_above_threshold(
    snapshot: MetricsSnapshotView,
    metric: Seq<char>,
    value: u32,
    limit: u32,
)
    ensures
        alert_on(snapshot, metric, value, limit).len() == (if value > limit {
            1nat
        } else {
            0nat
        }),
        value > limit ==> alert_on(snapshot, metric, value, limit)[0].severity
            == AlertSeverity::Critical && alert_on(snapshot, metric, value, limit)[0].alert_type
            == metric,
        alert_on(snapshot, metric, limit, limit).len() == 0,
        limit < u32::MAX ==> alert_on(snapshot, metric, (limit + 1) as u32, limit).len() == 1,
        limit > 0 ==> alert_on(snapshot, metric, (limit - 1) as u32, limit).len() == 0,
{
}

/// The alerts of a snapshot are as many as its figures above their critical
/// thresholds, so none is raised when all three are at or below them.
pub proof fn lemma_alert_count(snapshot: MetricsSnapshotView, thresholds: AlertThresholds)
    ensures
        alerts_for(snapshot, thresholds).len() == (if snapshot.cpu_usage
            > thresholds.cpu_critical {
            1nat
        } else {
            0nat
        }) + (if snapshot.memory_usage > thresholds.memory_critical {
            1nat
        } else {
            0nat
        }) + (if snapshot.disk_usage > thresholds.disk_critical {
            1nat
        } else {
            0nat
        }),
{
}

} // verus!
