use rust_server::config::AlertThresholds;
use rust_server::models::metrics::{ProcessMetrics, ServerMetrics};
use rust_server::monitoring::collector::SamplerError;
use rust_server::monitoring::traits::MonitoringServiceTrait;
use rust_server::monitoring::{MetricsCollector, MonitorAction, MonitoringService};

fn sample(cpu: u32) -> ServerMetrics {
    let mut sample = ServerMetrics::new(
        cpu,
        6_310,
        2_000,
        1024,
        2048,
        vec![ProcessMetrics::new(101, "nginx".to_string(), 120, 10_485_760)],
    );
    sample.timestamp = 1_704_067_200_000;
    sample
}

fn failure() -> SamplerError {
    SamplerError { message: "sampler unavailable".to_string() }
}

fn start(id: &str) -> MonitorAction {
    MonitorAction::StartCollector { server_id: id.to_string() }
}

fn stop(id: &str) -> MonitorAction {
    MonitorAction::StopCollector { server_id: id.to_string() }
}

fn online(id: &str, online: bool) -> MonitorAction {
    MonitorAction::SetOnline { server_id: id.to_string(), online }
}

/// Carries the actions out on a count of live loops per server.
fn live_loops(actions: &[MonitorAction], id: &str, before: i64) -> i64 {
    let mut live = before;
    for action in actions {
        match action {
            MonitorAction::StartCollector { server_id } if server_id == id => live += 1,
            MonitorAction::StopCollector { server_id } if server_id == id => live -= 1,
            _ => {}
        }
    }
    live
}

#[test]
fn test_metrics_collector_initialization() {
    let collector = rust_server::monitoring::collector::MetricsCollector::new();
    assert!(collector.get_current_metrics().is_none());
}

#[test]
fn collector_starts_empty_and_idle() {
    let collector = MetricsCollector::new();
    assert!(collector.get_current_metrics().is_none());
    assert!(!collector.is_running());
}

#[test]
fn collector_start_is_idempotent() {
    let mut collector = MetricsCollector::new();
    assert!(collector.start_collection());
    assert!(collector.is_running());
    assert!(!collector.start_collection());
    assert!(collector.is_running());
}

#[test]
fn collector_keeps_the_latest_sample() {
    let mut collector = MetricsCollector::new();
    collector.start_collection();
    collector.record(Ok(sample(1_000)));
    assert_eq!(collector.get_current_metrics(), Some(sample(1_000)));
    collector.record(Ok(sample(2_000)));
    assert_eq!(collector.get_current_metrics(), Some(sample(2_000)));
}

#[test]
fn collector_survives_a_failed_tick() {
    let mut collector = MetricsCollector::new();
    collector.start_collection();
    collector.record(Err(failure()));
    assert!(collector.get_current_metrics().is_none());
    collector.record(Ok(sample(1_000)));
    collector.record(Err(failure()));
    assert_eq!(collector.get_current_metrics(), Some(sample(1_000)));
    assert!(collector.is_running());
}

#[test]
fn stopped_collector_keeps_its_sample_and_takes_no_more() {
    let mut collector = MetricsCollector::new();
    collector.start_collection();
    collector.record(Ok(sample(1_000)));
    assert!(collector.stop());
    assert!(!collector.is_running());
    assert_eq!(collector.get_current_metrics(), Some(sample(1_000)));
    collector.record(Ok(sample(2_000)));
    assert_eq!(collector.get_current_metrics(), Some(sample(1_000)));
    assert!(!collector.stop());
}

#[test]
fn idle_collector_takes_no_sample() {
    let mut collector = MetricsCollector::new();
    collector.record(Ok(sample(1_000)));
    assert!(collector.get_current_metrics().is_none());
}

#[test]
fn new_registry_monitors_nothing() {
    let service = MonitoringService::new();
    assert!(service.monitored_servers().is_empty());
    assert!(!service.is_monitoring("srv-1"));
    assert!(service.get_current_metrics().is_none());
    assert!(service.get_server_processes("srv-1").is_none());
}

#[test]
fn start_launches_the_loops_and_marks_the_server_online() {
    let mut service = MonitoringService::new();
    let actions = service.start_monitoring("srv-1", true);
    assert_eq!(actions, vec![start("srv-1"), online("srv-1", true)]);
    assert!(service.is_monitoring("srv-1"));
    assert_eq!(service.monitored_servers(), vec!["srv-1".to_string()]);
}

#[test]
fn start_of_an_unknown_server_does_nothing() {
    let mut service = MonitoringService::new();
    assert!(service.start_monitoring("ghost", false).is_empty());
    assert!(!service.is_monitoring("ghost"));
    assert!(service.monitored_servers().is_empty());
}

#[test]
fn starting_twice_leaves_one_collector() {
    let mut service = MonitoringService::new();
    let first = service.start_monitoring("srv-1", true);
    let second = service.start_monitoring("srv-1", true);
    assert_eq!(second, vec![stop("srv-1"), start("srv-1"), online("srv-1", true)]);
    assert_eq!(service.monitored_servers(), vec!["srv-1".to_string()]);
    let live = live_loops(&second, "srv-1", live_loops(&first, "srv-1", 0));
    assert_eq!(live, 1);
}

#[test]
fn restart_drops_the_cached_sample() {
    let mut service = MonitoringService::new();
    service.start_monitoring("srv-1", true);
    service.record_sample("srv-1", Ok(sample(1_000)));
    service.start_monitoring("srv-1", true);
    assert_eq!(service.get_server_metrics("srv-1", true), (None, Vec::new()));
}

#[test]
fn restart_moves_the_server_to_the_end() {
    let mut service = MonitoringService::new();
    service.start_monitoring("a", true);
    service.start_monitoring("b", true);
    service.start_monitoring("a", true);
    assert_eq!(service.monitored_servers(), vec!["b".to_string(), "a".to_string()]);
}

#[test]
fn stop_cancels_the_loops_and_marks_the_server_offline() {
    let mut service = MonitoringService::new();
    service.start_monitoring("srv-1", true);
    service.start_monitoring("srv-2", true);
    let actions = service.stop_monitoring("srv-1");
    assert_eq!(actions, vec![stop("srv-1"), online("srv-1", false)]);
    assert!(!service.is_monitoring("srv-1"));
    assert!(service.is_monitoring("srv-2"));
}

#[test]
fn stop_of_an_unmonitored_server_does_nothing() {
    let mut service = MonitoringService::new();
    service.start_monitoring("srv-1", true);
    assert!(service.stop_monitoring("srv-2").is_empty());
    assert!(service.stop_monitoring("srv-1").len() == 2);
    assert!(service.stop_monitoring("srv-1").is_empty());
    assert!(service.monitored_servers().is_empty());
}

#[test]
fn loops_stay_in_step_with_the_registry() {
    let mut service = MonitoringService::new();
    let mut live_a = 0;
    let mut live_b = 0;
    let steps: Vec<(&str, bool)> = vec![
        ("a", true),
        ("b", true),
        ("a", true),
        ("a", false),
        ("a", false),
        ("b", true),
        ("a", true),
        ("b", false),
    ];
    for (id, begin) in steps {
        let actions = if begin {
            service.start_monitoring(id, true)
        } else {
            service.stop_monitoring(id)
        };
        live_a = live_loops(&actions, "a", live_a);
        live_b = live_loops(&actions, "b", live_b);
        assert_eq!(live_a, if service.is_monitoring("a") { 1 } else { 0 });
        assert_eq!(live_b, if service.is_monitoring("b") { 1 } else { 0 });
    }
}

#[test]
fn first_read_of_an_unmonitored_server_starts_a_collector() {
    let mut service = MonitoringService::new();
    assert!(!service.is_monitoring("srv-9"));
    let (read, actions) = service.get_server_metrics("srv-9", true);
    assert!(read.is_none());
    assert_eq!(actions, vec![start("srv-9"), online("srv-9", true)]);
    assert!(service.is_monitoring("srv-9"));
    assert_eq!(service.monitored_servers(), vec!["srv-9".to_string()]);
}

#[test]
fn later_reads_find_the_sample_and_start_nothing() {
    let mut service = MonitoringService::new();
    service.get_server_metrics("srv-9", true);
    assert_eq!(service.get_server_metrics("srv-9", true), (None, Vec::new()));
    service.record_sample("srv-9", Ok(sample(1_000)));
    assert_eq!(service.get_server_metrics("srv-9", false), (Some(sample(1_000)), Vec::new()));
    assert_eq!(service.monitored_servers().len(), 1);
}

#[test]
fn read_of_a_server_that_the_store_does_not_know() {
    let mut service = MonitoringService::new();
    assert_eq!(service.get_server_metrics("ghost", false), (None, Vec::new()));
    assert!(!service.is_monitoring("ghost"));
}

#[test]
fn samples_go_to_their_own_server() {
    let mut service = MonitoringService::new();
    service.start_monitoring("a", true);
    service.start_monitoring("b", true);
    service.record_sample("b", Ok(sample(2_000)));
    assert_eq!(service.get_server_metrics("a", true).0, None);
    assert_eq!(service.get_server_metrics("b", true).0, Some(sample(2_000)));
    service.record_sample("a", Ok(sample(1_000)));
    service.record_sample("b", Err(failure()));
    assert_eq!(service.get_server_metrics("a", true).0, Some(sample(1_000)));
    assert_eq!(service.get_server_metrics("b", true).0, Some(sample(2_000)));
}

#[test]
fn tick_of_an_unmonitored_server_is_dropped() {
    let mut service = MonitoringService::new();
    service.record_sample("srv-1", Ok(sample(1_000)));
    assert!(!service.is_monitoring("srv-1"));
    assert!(service.monitored_servers().is_empty());
}

#[test]
fn processes_are_read_without_starting_anything() {
    let mut service = MonitoringService::new();
    assert!(service.get_server_processes("srv-1").is_none());
    assert!(!service.is_monitoring("srv-1"));
    service.start_monitoring("srv-1", true);
    assert!(service.get_server_processes("srv-1").is_none());
    service.record_sample("srv-1", Ok(sample(1_000)));
    assert_eq!(
        service.get_server_processes("srv-1"),
        Some(vec![ProcessMetrics::new(101, "nginx".to_string(), 120, 10_485_760)])
    );
}

#[test]
fn global_read_takes_the_server_monitored_longest() {
    let mut service = MonitoringService::new();
    service.start_monitoring("a", true);
    service.start_monitoring("b", true);
    service.record_sample("b", Ok(sample(2_000)));
    assert!(service.get_current_metrics().is_none());
    service.record_sample("a", Ok(sample(1_000)));
    assert_eq!(service.get_current_metrics(), Some(sample(1_000)));
    service.stop_monitoring("a");
    assert_eq!(service.get_current_metrics(), Some(sample(2_000)));
}

#[test]
fn persistence_tick_writes_the_latest_sample() {
    let mut service = MonitoringService::new();
    service.start_monitoring("srv-1", true);
    let step = service.persist("srv-1", 5, &AlertThresholds::default());
    assert!(step.snapshot.is_none());
    assert!(step.alerts.is_empty());
    service.record_sample("srv-1", Ok(sample(4_250)));
    let step = service.persist("srv-1", 1_704_067_260_000, &AlertThresholds::default());
    let record = step.snapshot.unwrap();
    assert_eq!(record.server_id, "srv-1");
    assert_eq!(record.cpu_usage, 4_250);
    assert_eq!(record.memory_usage, 6_310);
    assert_eq!(record.disk_usage, 2_000);
    assert_eq!(record.network_rx, 1024);
    assert_eq!(record.network_tx, 2048);
    assert_eq!(record.timestamp, 1_704_067_260_000);
    assert_eq!(record.processes.len(), 1);
    assert!(step.alerts.is_empty());
}

#[test]
fn persistence_tick_raises_alerts_above_the_threshold() {
    let mut service = MonitoringService::new();
    service.start_monitoring("srv-1", true);
    service.record_sample("srv-1", Ok(sample(9_000)));
    assert!(service.persist("srv-1", 1, &AlertThresholds::default()).alerts.is_empty());
    service.record_sample("srv-1", Ok(sample(9_001)));
    let step = service.persist("srv-1", 2, &AlertThresholds::default());
    assert_eq!(step.alerts.len(), 1);
    assert_eq!(step.alerts[0].alert_type, "cpu_usage");
    assert_eq!(step.alerts[0].server_id, "srv-1");
    assert_eq!(step.alerts[0].created_at, 2);
}

#[test]
fn nothing_is_persisted_after_stop() {
    let mut service = MonitoringService::new();
    service.start_monitoring("srv-1", true);
    service.record_sample("srv-1", Ok(sample(9_500)));
    assert!(service.persist("srv-1", 1, &AlertThresholds::default()).snapshot.is_some());
    service.stop_monitoring("srv-1");
    let mut written = 0;
    for tick in 2..6 {
        service.record_sample("srv-1", Ok(sample(9_500)));
        let step = service.persist("srv-1", tick, &AlertThresholds::default());
        if step.snapshot.is_some() {
            written += 1;
        }
        assert!(step.alerts.is_empty());
    }
    assert_eq!(written, 0);
}

#[test]
fn persistence_of_an_unmonitored_server_is_empty() {
    let service = MonitoringService::new();
    let step = service.persist("ghost", 1, &AlertThresholds::default());
    assert!(step.snapshot.is_none());
    assert!(step.alerts.is_empty());
}

/// A reader that knows the registry by its capability only.
fn busiest_process<M: MonitoringServiceTrait>(monitoring: &mut M, server_id: &str) -> Option<String> {
    monitoring.get_server_metrics(server_id, true).0?;
    let processes = monitoring.get_server_processes(server_id)?;
    processes.first().map(|p| p.name.clone())
}

/// A stand-in that always has the same sample.
struct FixedMetrics;

impl MonitoringServiceTrait for FixedMetrics {
    fn get_current_metrics(&self) -> Option<ServerMetrics> {
        Some(sample(1))
    }

    fn get_server_metrics(
        &mut self,
        _server_id: &str,
        _registered: bool,
    ) -> (Option<ServerMetrics>, Vec<MonitorAction>) {
        (Some(sample(1)), Vec::new())
    }

    fn get_server_processes(&self, _server_id: &str) -> Option<Vec<ProcessMetrics>> {
        Some(sample(1).processes)
    }
}

#[test]
fn registry_is_read_through_its_capability() {
    let mut service = MonitoringService::new();
    assert_eq!(busiest_process(&mut service, "srv-1"), None);
    assert!(service.is_monitoring("srv-1"));
    service.record_sample("srv-1", Ok(sample(1_000)));
    assert_eq!(busiest_process(&mut service, "srv-1"), Some("nginx".to_string()));
    assert_eq!(MonitoringServiceTrait::get_current_metrics(&service), Some(sample(1_000)));
    assert_eq!(busiest_process(&mut FixedMetrics, "anything"), Some("nginx".to_string()));
}
