use rust_server::models::metrics::ProcessMetrics;
use rust_server::monitoring::collector::{
    calculate_disk_usage, collect_process_metrics, measure, network_totals, usage_share, DiskSpace,
    NetworkCounters, SystemReading, TOP_PROCESSES,
};

fn process(pid: u32, cpu: u32) -> ProcessMetrics {
    ProcessMetrics::new(pid, format!("p{}", pid), cpu, 1)
}

#[test]
fn share_is_in_hundredths_of_a_percent() {
    assert_eq!(usage_share(50, 100), 5_000);
    assert_eq!(usage_share(100, 100), 10_000);
    assert_eq!(usage_share(0, 100), 0);
    assert_eq!(usage_share(631, 1000), 6_310);
    assert_eq!(usage_share(8_000_000_000, 16_000_000_000), 5_000);
}

#[test]
fn share_rounds_down() {
    assert_eq!(usage_share(1, 3), 3_333);
    assert_eq!(usage_share(2, 3), 6_666);
    assert_eq!(usage_share(1, 20_000), 0);
}

#[test]
fn share_of_an_empty_whole_is_zero() {
    assert_eq!(usage_share(0, 0), 0);
    assert_eq!(usage_share(17, 0), 0);
}

#[test]
fn share_is_capped_at_32_bits() {
    assert_eq!(usage_share(u64::MAX, 1), u32::MAX);
    assert_eq!(usage_share(u64::MAX, u64::MAX), 10_000);
    assert_eq!(usage_share(200, 100), 20_000);
}

#[test]
fn disk_usage_without_disks_is_zero() {
    assert_eq!(calculate_disk_usage(&Vec::new()), 0);
}

#[test]
fn disk_usage_is_used_over_total() {
    let disks = vec![DiskSpace { total_space: 100, available_space: 25 }];
    assert_eq!(calculate_disk_usage(&disks), 7_500);
    let disks = vec![
        DiskSpace { total_space: 100, available_space: 100 },
        DiskSpace { total_space: 300, available_space: 100 },
    ];
    // 200 of 400 bytes are in use.
    assert_eq!(calculate_disk_usage(&disks), 5_000);
}

#[test]
fn disk_usage_of_empty_disks_is_zero() {
    let disks = vec![DiskSpace { total_space: 0, available_space: 0 }];
    assert_eq!(calculate_disk_usage(&disks), 0);
}

#[test]
fn disk_that_reports_too_much_free_space_counts_as_unused() {
    let disks = vec![
        DiskSpace { total_space: 100, available_space: 500 },
        DiskSpace { total_space: 100, available_space: 0 },
    ];
    assert_eq!(calculate_disk_usage(&disks), 5_000);
}

#[test]
fn disk_sums_are_capped() {
    let disks = vec![
        DiskSpace { total_space: u64::MAX, available_space: 0 },
        DiskSpace { total_space: u64::MAX, available_space: 0 },
    ];
    assert_eq!(calculate_disk_usage(&disks), 10_000);
}

#[test]
fn network_totals_add_up_over_the_interfaces() {
    assert_eq!(network_totals(&Vec::new()), (0, 0));
    let networks = vec![
        NetworkCounters { received: 1000, transmitted: 10 },
        NetworkCounters { received: 24, transmitted: 2038 },
    ];
    assert_eq!(network_totals(&networks), (1024, 2048));
}

#[test]
fn network_totals_are_capped() {
    let networks = vec![
        NetworkCounters { received: u64::MAX, transmitted: 1 },
        NetworkCounters { received: 1, transmitted: 1 },
    ];
    assert_eq!(network_totals(&networks), (u64::MAX, 2));
}

#[test]
fn top_processes_are_the_ten_busiest_in_order() {
    let usages = [5, 90, 20, 70, 10, 60, 30, 50, 40, 80, 100, 1];
    let list: Vec<ProcessMetrics> =
        usages.iter().enumerate().map(|(i, cpu)| process(i as u32, *cpu)).collect();
    let top = collect_process_metrics(&list);
    assert_eq!(top.len(), TOP_PROCESSES);
    let got: Vec<u32> = top.iter().map(|p| p.cpu_usage).collect();
    assert_eq!(got, vec![100, 90, 80, 70, 60, 50, 40, 30, 20, 10]);
    let pids: Vec<u32> = top.iter().map(|p| p.pid).collect();
    assert_eq!(pids, vec![10, 1, 9, 3, 5, 7, 8, 6, 2, 4]);
}

#[test]
fn few_processes_are_all_kept() {
    assert!(collect_process_metrics(&Vec::new()).is_empty());
    let list = vec![process(1, 10), process(2, 30), process(3, 20)];
    let top = collect_process_metrics(&list);
    assert_eq!(top, vec![process(2, 30), process(3, 20), process(1, 10)]);
}

#[test]
fn equally_busy_processes_keep_their_order() {
    let list = vec![process(1, 50), process(2, 70), process(3, 50), process(4, 70), process(5, 50)];
    let top = collect_process_metrics(&list);
    let pids: Vec<u32> = top.iter().map(|p| p.pid).collect();
    assert_eq!(pids, vec![2, 4, 1, 3, 5]);
}

#[test]
fn ties_at_the_cut_go_to_the_earlier_process() {
    let list: Vec<ProcessMetrics> = (0..15).map(|i| process(i, 42)).collect();
    let top = collect_process_metrics(&list);
    let pids: Vec<u32> = top.iter().map(|p| p.pid).collect();
    assert_eq!(pids, (0..10).collect::<Vec<u32>>());
}

#[test]
fn late_busy_process_displaces_the_last() {
    let mut list: Vec<ProcessMetrics> = (0..10).map(|i| process(i, 100 - i)).collect();
    list.push(process(10, 1));
    list.push(process(11, 200));
    let top = collect_process_metrics(&list);
    let pids: Vec<u32> = top.iter().map(|p| p.pid).collect();
    assert_eq!(pids, vec![11, 0, 1, 2, 3, 4, 5, 6, 7, 8]);
}

#[test]
fn measure_turns_a_reading_into_a_sample() {
    let reading = SystemReading {
        cpu_usage: 4_250,
        used_memory: 631,
        total_memory: 1000,
        disks: vec![DiskSpace { total_space: 500, available_space: 400 }],
        networks: vec![
            NetworkCounters { received: 1000, transmitted: 2000 },
            NetworkCounters { received: 24, transmitted: 48 },
        ],
        processes: vec![process(1, 10), process(2, 20)],
    };
    let sample = measure(&reading, 1_704_067_200_000);
    assert_eq!(sample.cpu_usage, 4_250);
    assert_eq!(sample.memory_usage, 6_310);
    assert_eq!(sample.disk_usage, 2_000);
    assert_eq!(sample.network_rx, 1024);
    assert_eq!(sample.network_tx, 2048);
    assert_eq!(sample.timestamp, 1_704_067_200_000);
    assert_eq!(sample.processes, vec![process(2, 20), process(1, 10)]);
}
