use rust_server::db::history::MetricsHistory;
use rust_server::db::models::MetricsSnapshot;
use rust_server::models::metrics::ProcessMetrics;

fn record(server_id: &str, timestamp: i64, cpu: u32) -> MetricsSnapshot {
    MetricsSnapshot {
        id: 0,
        server_id: server_id.to_string(),
        cpu_usage: cpu,
        memory_usage: 6_310,
        disk_usage: 2_000,
        network_rx: 1024,
        network_tx: 2048,
        processes: vec![ProcessMetrics::new(101, "nginx".to_string(), 120, 10_485_760)],
        timestamp,
    }
}

#[test]
fn new_history_is_empty() {
    let history = MetricsHistory::new();
    assert_eq!(history.len(), 0);
    assert!(history.get_server_metrics("srv-1", i64::MIN, i64::MAX).is_empty());
}

#[test]
fn saved_record_is_found_with_its_fields() {
    let mut history = MetricsHistory::new();
    let id = history.save_metrics(record("srv-1", 1_000, 4_250));
    assert_eq!(id, 1);
    let found = history.get_server_metrics("srv-1", 1_000, 1_001);
    let mut expected = record("srv-1", 1_000, 4_250);
    expected.id = 1;
    assert_eq!(found, vec![expected]);
}

#[test]
fn ids_count_up() {
    let mut history = MetricsHistory::new();
    assert_eq!(history.save_metrics(record("a", 3, 0)), 1);
    assert_eq!(history.save_metrics(record("b", 2, 0)), 2);
    assert_eq!(history.save_metrics(record("a", 1, 0)), 3);
    assert_eq!(history.len(), 3);
}

#[test]
fn window_is_half_open() {
    let mut history = MetricsHistory::new();
    history.save_metrics(record("srv-1", 100, 1));
    history.save_metrics(record("srv-1", 200, 2));
    history.save_metrics(record("srv-1", 300, 3));
    let stamps = |from: i64, to: i64| -> Vec<i64> {
        history.get_server_metrics("srv-1", from, to).iter().map(|r| r.timestamp).collect()
    };
    assert_eq!(stamps(100, 300), vec![100, 200]);
    assert_eq!(stamps(100, 301), vec![100, 200, 300]);
    assert_eq!(stamps(101, 300), vec![200]);
    assert_eq!(stamps(200, 200), Vec::<i64>::new());
    assert_eq!(stamps(300, 100), Vec::<i64>::new());
    assert_eq!(stamps(i64::MIN, i64::MAX), vec![100, 200, 300]);
}

#[test]
fn queries_are_per_server() {
    let mut history = MetricsHistory::new();
    history.save_metrics(record("a", 1, 10));
    history.save_metrics(record("b", 2, 20));
    history.save_metrics(record("a", 3, 30));
    let usage = |id: &str| -> Vec<u32> {
        history.get_server_metrics(id, 0, 10).iter().map(|r| r.cpu_usage).collect()
    };
    assert_eq!(usage("a"), vec![10, 30]);
    assert_eq!(usage("b"), vec![20]);
    assert_eq!(usage("c"), Vec::<u32>::new());
    assert_eq!(usage("A"), Vec::<u32>::new());
}

#[test]
fn records_come_back_oldest_first() {
    let mut history = MetricsHistory::new();
    for (stamp, cpu) in [(50, 1), (10, 2), (30, 3), (10, 4), (40, 5), (30, 6)] {
        history.save_metrics(record("srv-1", stamp, cpu));
    }
    let found = history.get_server_metrics("srv-1", 0, 100);
    let stamps: Vec<i64> = found.iter().map(|r| r.timestamp).collect();
    assert_eq!(stamps, vec![10, 10, 30, 30, 40, 50]);
    // Records of one instant keep the order in which they were saved.
    let usage: Vec<u32> = found.iter().map(|r| r.cpu_usage).collect();
    assert_eq!(usage, vec![2, 4, 3, 6, 5, 1]);
    let ids: Vec<i64> = found.iter().map(|r| r.id).collect();
    assert_eq!(ids, vec![2, 4, 3, 6, 5, 1]);
}

#[test]
fn saving_never_loses_a_record() {
    let mut history = MetricsHistory::new();
    let mut seen = 0;
    for stamp in [5, 3, 9, 1, 7, 7, 2] {
        history.save_metrics(record("srv-1", stamp, stamp as u32));
        seen += 1;
        assert_eq!(history.len(), seen);
        assert_eq!(history.get_server_metrics("srv-1", 0, 10).len(), seen);
    }
}
