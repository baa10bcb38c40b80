use wsentry::collector::{
    local_snapshot, order_processes, process_from, DemoCollector, HostReadings, ProcessReading,
};
use wsentry::model::{LoadAverage, ProcessSnapshot, Timestamp};

fn reading(pid: u32, cpu: u32, memory: u64) -> ProcessReading {
    ProcessReading {
        pid,
        name: format!("p{pid}"),
        cpu_usage_hundredths: cpu,
        memory_bytes: memory,
        virtual_memory_bytes: 0,
        status: "Run".to_owned(),
        run_time_seconds: 0,
        command_parts: vec!["/bin/p".to_owned(), "--flag".to_owned()],
    }
}

fn host() -> HostReadings {
    HostReadings {
        timestamp: Timestamp { seconds: 5, nanos: 0 },
        host_name: None,
        long_os_version: None,
        os_name: Some("Linux".to_owned()),
        platform: "linux".to_owned(),
        kernel_version: Some("6.1".to_owned()),
        uptime_seconds: Some(10),
        cpu_usage_hundredths: 1_234,
        load_average: None,
        memory_used_bytes: 1,
        memory_total_bytes: 2,
        swap_used_bytes: 0,
        swap_total_bytes: 0,
    }
}

#[test]
fn live_samples_fill_gaps_and_order_processes() {
    let snapshot = local_snapshot(
        host(),
        vec![reading(1, 100, 5), reading(2, 900, 1), reading(3, 100, 9)],
        Vec::new(),
        Vec::new(),
    );
    assert_eq!(snapshot.host_name, "unknown");
    assert_eq!(snapshot.os_name, "Linux");
    assert_eq!(snapshot.kernel_version, "6.1");
    assert_eq!(snapshot.load_average, LoadAverage { one: 0, five: 0, fifteen: 0 });
    let pids: Vec<u32> = snapshot.processes.iter().map(|p| p.pid).collect();
    assert_eq!(pids, vec![2, 3, 1]);
    assert_eq!(snapshot.processes[0].command, "/bin/p --flag");
    assert!(snapshot.services.is_empty());
    let mut readings = host();
    readings.os_name = None;
    assert_eq!(local_snapshot(readings, Vec::new(), Vec::new(), Vec::new()).os_name, "linux");
}

#[test]
fn busiest_processes_come_first_and_ties_keep_their_order() {
    let process = |pid: u32, cpu: u32, memory: u64| -> ProcessSnapshot { process_from(reading(pid, cpu, memory)) };
    let ordered = order_processes(vec![
        process(1, 10, 1),
        process(2, 10, 1),
        process(3, 50, 0),
        process(4, 10, 7),
    ]);
    let pids: Vec<u32> = ordered.iter().map(|p| p.pid).collect();
    assert_eq!(pids, vec![3, 4, 1, 2]);
}

#[test]
fn demo_samples_advance_the_counters() {
    let mut collector = DemoCollector::new();
    assert_eq!(collector.advance(), 1);
    let snapshot = collector.snapshot(5_000, 1_000, Timestamp { seconds: 1, nanos: 0 });
    assert_eq!(snapshot.host_name, "demo-workstation");
    assert_eq!(snapshot.uptime_seconds, Some(391_421));
    assert_eq!(snapshot.processes[0].cpu_usage_hundredths, 1_900);
    assert_eq!(snapshot.networks[0].received_bytes, 828_000);
    assert_eq!(snapshot.sockets[0].local_port, 8080);
    assert_eq!(collector.advance(), 2);
}

#[test]
fn demo_traffic_grows_by_a_fixed_step_per_sample() {
    let mut collector = DemoCollector::new();
    collector.advance();
    let earlier = collector.snapshot(2_800, 9_000, Timestamp { seconds: 1, nanos: 0 });
    collector.advance();
    let later = collector.snapshot(7_400, 4_000, Timestamp { seconds: 2, nanos: 5 });
    assert_eq!(earlier.networks[0].transmitted_bytes, 213_000);
    assert_eq!(
        later.networks[0].received_bytes,
        earlier.networks[0].received_bytes + 8_000
    );
    assert_eq!(
        later.networks[0].transmitted_bytes,
        earlier.networks[0].transmitted_bytes + 3_000
    );
    assert_eq!(later.uptime_seconds, Some(391_422));
}
