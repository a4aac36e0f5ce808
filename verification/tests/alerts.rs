use rust_server::config::AlertThresholds;
use rust_server::db::models::{Alert, AlertSeverity, MetricsSnapshot};
use rust_server::models::metrics::{ProcessMetrics, ServerMetrics};
use rust_server::monitoring::collector::{DiskSpace, NetworkCounters, SystemReading};
use rust_server::monitoring::service::{collect_metrics, evaluate_alerts, snapshot_of};

fn snapshot(cpu: u32, memory: u32, disk: u32) -> MetricsSnapshot {
    MetricsSnapshot {
        id: 0,
        server_id: "srv-1".to_string(),
        cpu_usage: cpu,
        memory_usage: memory,
        disk_usage: disk,
        network_rx: 0,
        network_tx: 0,
        processes: Vec::new(),
        timestamp: 1_704_067_200_000,
    }
}

#[test]
fn no_alert_at_or_below_the_threshold() {
    let thresholds = AlertThresholds::default();
    assert!(evaluate_alerts(&snapshot(9_000, 9_000, 9_000), &thresholds).is_empty());
    assert!(evaluate_alerts(&snapshot(8_999, 8_999, 8_999), &thresholds).is_empty());
    assert!(evaluate_alerts(&snapshot(0, 0, 0), &thresholds).is_empty());
}

#[test]
fn one_step_above_the_threshold_raises_a_critical_alert() {
    let thresholds = AlertThresholds::default();
    let alerts = evaluate_alerts(&snapshot(9_001, 9_000, 8_999), &thresholds);
    assert_eq!(
        alerts,
        vec![Alert {
            id: 0,
            server_id: "srv-1".to_string(),
            alert_type: "cpu_usage".to_string(),
            severity: AlertSeverity::Critical,
            message: "cpu_usage at 90.01% exceeds the critical threshold of 90.00%".to_string(),
            created_at: 1_704_067_200_000,
            acknowledged_at: None,
            acknowledged_by: None,
        }]
    );
}

#[test]
fn each_figure_is_held_against_its_own_threshold() {
    let thresholds = AlertThresholds {
        cpu_warning: 0,
        cpu_critical: 5_000,
        memory_warning: 0,
        memory_critical: 7_500,
        disk_warning: 0,
        disk_critical: 9_950,
    };
    let alerts = evaluate_alerts(&snapshot(5_000, 7_501, 10_000), &thresholds);
    let kinds: Vec<&str> = alerts.iter().map(|a| a.alert_type.as_str()).collect();
    assert_eq!(kinds, vec!["memory_usage", "disk_usage"]);
    assert_eq!(
        alerts[0].message,
        "memory_usage at 75.01% exceeds the critical threshold of 75.00%"
    );
    assert_eq!(
        alerts[1].message,
        "disk_usage at 100.00% exceeds the critical threshold of 99.50%"
    );
}

#[test]
fn all_three_figures_can_alert_at_once() {
    let alerts = evaluate_alerts(&snapshot(9_550, 9_999, 12_345), &AlertThresholds::default());
    let kinds: Vec<&str> = alerts.iter().map(|a| a.alert_type.as_str()).collect();
    assert_eq!(kinds, vec!["cpu_usage", "memory_usage", "disk_usage"]);
    assert!(alerts.iter().all(|a| a.severity == AlertSeverity::Critical));
    assert!(alerts.iter().all(|a| a.server_id == "srv-1"));
    assert_eq!(alerts[0].message, "cpu_usage at 95.50% exceeds the critical threshold of 90.00%");
    assert_eq!(alerts[2].message, "disk_usage at 123.45% exceeds the critical threshold of 90.00%");
}

#[test]
fn messages_keep_leading_zeros_of_the_fraction() {
    let thresholds = AlertThresholds {
        cpu_warning: 0,
        cpu_critical: 5,
        memory_warning: 0,
        memory_critical: u32::MAX,
        disk_warning: 0,
        disk_critical: u32::MAX,
    };
    let alerts = evaluate_alerts(&snapshot(107, 0, 0), &thresholds);
    assert_eq!(alerts.len(), 1);
    assert_eq!(alerts[0].message, "cpu_usage at 1.07% exceeds the critical threshold of 0.05%");
}

#[test]
fn default_thresholds_warn_at_eighty_and_are_critical_at_ninety() {
    let thresholds = AlertThresholds::default();
    assert_eq!(thresholds.cpu_warning, 8_000);
    assert_eq!(thresholds.cpu_critical, 9_000);
    assert_eq!(thresholds.memory_warning, 8_000);
    assert_eq!(thresholds.memory_critical, 9_000);
    assert_eq!(thresholds.disk_warning, 8_000);
    assert_eq!(thresholds.disk_critical, 9_000);
}

#[test]
fn snapshot_copies_the_sample() {
    let mut sample = ServerMetrics::new(
        4_250,
        6_310,
        2_000,
        1024,
        2048,
        vec![ProcessMetrics::new(101, "nginx".to_string(), 120, 10_485_760)],
    );
    sample.timestamp = 5;
    let record = snapshot_of("srv-1", &sample, 1_704_067_200_000);
    assert_eq!(
        record,
        MetricsSnapshot {
            id: 0,
            server_id: "srv-1".to_string(),
            cpu_usage: 4_250,
            memory_usage: 6_310,
            disk_usage: 2_000,
            network_rx: 1024,
            network_tx: 2048,
            processes: vec![ProcessMetrics::new(101, "nginx".to_string(), 120, 10_485_760)],
            timestamp: 1_704_067_200_000,
        }
    );
}

#[test]
fn snapshot_caps_counters_that_do_not_fit() {
    let sample = ServerMetrics::new(0, 0, 0, u64::MAX, i64::MAX as u64 + 1, Vec::new());
    let record = snapshot_of("srv-1", &sample, 0);
    assert_eq!(record.network_rx, i64::MAX);
    assert_eq!(record.network_tx, i64::MAX);
    let sample = ServerMetrics::new(0, 0, 0, i64::MAX as u64, 0, Vec::new());
    assert_eq!(snapshot_of("srv-1", &sample, 0).network_rx, i64::MAX);
}

#[test]
fn collect_metrics_samples_and_converts() {
    let reading = SystemReading {
        cpu_usage: 9_100,
        used_memory: 1,
        total_memory: 2,
        disks: vec![DiskSpace { total_space: 10, available_space: 9 }],
        networks: vec![NetworkCounters { received: 7, transmitted: 8 }],
        processes: Vec::new(),
    };
    let record = collect_metrics("srv-2", &reading, 99);
    assert_eq!(record.id, 0);
    assert_eq!(record.server_id, "srv-2");
    assert_eq!(record.cpu_usage, 9_100);
    assert_eq!(record.memory_usage, 5_000);
    assert_eq!(record.disk_usage, 1_000);
    assert_eq!(record.network_rx, 7);
    assert_eq!(record.network_tx, 8);
    assert_eq!(record.timestamp, 99);
    assert!(record.processes.is_empty());
}

#[test]
fn an_alert_is_acknowledged_once() {
    let mut alert = evaluate_alerts(&snapshot(9_999, 0, 0), &AlertThresholds::default()).remove(0);
    assert!(!alert.is_acknowledged());
    alert.acknowledge(10, Some("ops".to_string()));
    assert!(alert.is_acknowledged());
    assert_eq!(alert.acknowledged_at, Some(10));
    assert_eq!(alert.acknowledged_by, Some("ops".to_string()));
    alert.acknowledge(20, None);
    assert_eq!(alert.acknowledged_at, Some(10));
    assert_eq!(alert.acknowledged_by, Some("ops".to_string()));
}
