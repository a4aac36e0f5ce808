use rust_server::models::metrics::{
    clone_processes, ProcessMetrics, ServerMetrics, FULL_SCALE, HIGH_USAGE,
};

/// Percent as the library counts it: hundredths of a percent.
fn pct(value: f32) -> u32 {
    (value * 100.0).round() as u32
}

#[test]
fn test_server_metrics_new() {
    let processes = vec![
        ProcessMetrics::new(1, "test1".to_string(), pct(10.0), 1000),
        ProcessMetrics::new(2, "test2".to_string(), pct(20.0), 2000),
    ];

    let metrics = ServerMetrics::new(pct(50.0), pct(60.0), pct(70.0), 1000, 2000, processes);

    assert_eq!(metrics.cpu_usage, pct(50.0));
    assert_eq!(metrics.memory_usage, pct(60.0));
    assert_eq!(metrics.disk_usage, pct(70.0));
    assert_eq!(metrics.network_rx, 1000);
    assert_eq!(metrics.network_tx, 2000);
    assert_eq!(metrics.processes.len(), 2);
}

#[test]
fn test_process_metrics() {
    let process = ProcessMetrics::new(1, "test".to_string(), pct(85.0), 1000);
    assert!(process.is_high_cpu());
    assert!(process.is_high_memory(1000));

    let process_low = ProcessMetrics::new(2, "test2".to_string(), pct(20.0), 100);
    assert!(!process_low.is_high_cpu());
    assert!(!process_low.is_high_memory(1000));
}

#[test]
fn scale_constants_are_in_hundredths() {
    assert_eq!(FULL_SCALE, 10_000);
    assert_eq!(HIGH_USAGE, 8_000);
    assert_eq!(pct(42.5), 4250);
}

#[test]
fn high_cpu_starts_strictly_above_eighty_percent() {
    assert!(!ProcessMetrics::new(1, "a".to_string(), 8_000, 0).is_high_cpu());
    assert!(ProcessMetrics::new(1, "a".to_string(), 8_001, 0).is_high_cpu());
    assert!(!ProcessMetrics::new(1, "a".to_string(), 7_999, 0).is_high_cpu());
    assert!(ProcessMetrics::new(1, "a".to_string(), 25_000, 0).is_high_cpu());
}

#[test]
fn high_memory_is_decided_exactly() {
    assert!(!ProcessMetrics::new(1, "a".to_string(), 0, 800).is_high_memory(1000));
    assert!(ProcessMetrics::new(1, "a".to_string(), 0, 801).is_high_memory(1000));
    assert!(!ProcessMetrics::new(1, "a".to_string(), 0, 4).is_high_memory(5));
    assert!(ProcessMetrics::new(1, "a".to_string(), 0, 5).is_high_memory(5));
}

#[test]
fn high_memory_without_any_memory() {
    assert!(ProcessMetrics::new(1, "a".to_string(), 0, 1).is_high_memory(0));
    assert!(!ProcessMetrics::new(1, "a".to_string(), 0, 0).is_high_memory(0));
}

#[test]
fn high_memory_does_not_overflow() {
    assert!(ProcessMetrics::new(1, "a".to_string(), 0, u64::MAX).is_high_memory(u64::MAX));
    assert!(!ProcessMetrics::new(1, "a".to_string(), 0, u64::MAX / 2).is_high_memory(u64::MAX));
}

#[test]
fn empty_sample_has_three_zero_figures() {
    assert!(ServerMetrics::new(0, 0, 0, 5, 6, Vec::new()).is_empty());
    assert!(!ServerMetrics::new(1, 0, 0, 0, 0, Vec::new()).is_empty());
    assert!(!ServerMetrics::new(0, 1, 0, 0, 0, Vec::new()).is_empty());
    assert!(!ServerMetrics::new(0, 0, 1, 0, 0, Vec::new()).is_empty());
    assert!(ServerMetrics::default().is_empty());
}

#[test]
fn default_sample_is_blank() {
    let sample = ServerMetrics::default();
    assert_eq!(sample.network_rx, 0);
    assert_eq!(sample.network_tx, 0);
    assert_eq!(sample.timestamp, 0);
    assert!(sample.processes.is_empty());
}

#[test]
fn total_network_usage_adds_both_directions() {
    let sample = ServerMetrics::new(0, 0, 0, 1000, 2000, Vec::new());
    assert_eq!(sample.total_network_usage(), 3000);
    let edge = ServerMetrics::new(0, 0, 0, u64::MAX - 1, 1, Vec::new());
    assert_eq!(edge.total_network_usage(), u64::MAX);
}

#[test]
fn new_sample_is_stamped_with_the_clock() {
    let sample = ServerMetrics::new(1, 2, 3, 4, 5, Vec::new());
    // 2020-01-01 in milliseconds: any working clock is past it.
    assert!(sample.timestamp > 1_577_836_800_000);
}

#[test]
fn update_timestamp_changes_the_stamp_only() {
    let mut sample = ServerMetrics::new(
        1,
        2,
        3,
        4,
        5,
        vec![ProcessMetrics::new(9, "p".to_string(), 7, 8)],
    );
    sample.timestamp = 0;
    sample.update_timestamp();
    assert!(sample.timestamp > 1_577_836_800_000);
    assert_eq!(sample.cpu_usage, 1);
    assert_eq!(sample.memory_usage, 2);
    assert_eq!(sample.disk_usage, 3);
    assert_eq!(sample.network_rx, 4);
    assert_eq!(sample.network_tx, 5);
    assert_eq!(sample.processes, vec![ProcessMetrics::new(9, "p".to_string(), 7, 8)]);
}

#[test]
fn clones_are_equal() {
    let process = ProcessMetrics::new(3, "nginx".to_string(), 120, 10_485_760);
    assert_eq!(process.clone(), process);
    let mut sample = ServerMetrics::new(1, 2, 3, 4, 5, vec![process.clone()]);
    sample.timestamp = 77;
    assert_eq!(sample.clone(), sample);
    let list = vec![process.clone(), ProcessMetrics::new(4, "sshd".to_string(), 1, 2)];
    assert_eq!(clone_processes(&list), list);
    assert_eq!(clone_processes(&Vec::new()), Vec::new());
}
