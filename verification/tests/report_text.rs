use wsentry::collector::DemoCollector;
use wsentry::format::{bytes, duration, hundredths, percent, rounded_quotient, tenths};
use wsentry::model::{
    HealthState, LoadAverage, ProcessSnapshot, ServiceStatus, SocketProtocol, SocketSnapshot,
    SystemSnapshot, Timestamp,
};
use wsentry::report::{redact, report_file_name, shared_form, text, REDACTED};
use wsentry::time::rfc3339;

fn demo_sample(collector: &mut DemoCollector) -> SystemSnapshot {
    let tick = collector.advance();
    let wave = ((tick as f32 / 4.0).sin() + 1.0) / 2.0;
    let cpu = 28.0 + wave * 46.0;
    let memory_total: u64 = 16 * 1024 * 1024 * 1024;
    let memory_used = (memory_total as f32 * (0.52 + wave * 0.12)) as u64;
    collector.snapshot(
        (cpu * 100.0).round() as u32,
        memory_used,
        Timestamp { seconds: 1_700_000_000, nanos: 0 },
    )
}

fn small_snapshot() -> SystemSnapshot {
    SystemSnapshot {
        timestamp: Timestamp { seconds: 1_700_000_000, nanos: 0 },
        host_name: "box".to_owned(),
        os_name: "Linux".to_owned(),
        kernel_version: "6.1".to_owned(),
        uptime_seconds: Some(90_061),
        cpu_usage_hundredths: 2_555,
        load_average: LoadAverage { one: 124, five: 108, fifteen: 92 },
        memory_used_bytes: 8 * 1024 * 1024 * 1024,
        memory_total_bytes: 16 * 1024 * 1024 * 1024,
        swap_used_bytes: 0,
        swap_total_bytes: 0,
        processes: vec![ProcessSnapshot {
            pid: 1,
            name: "init".to_owned(),
            cpu_usage_hundredths: 0,
            memory_bytes: 0,
            virtual_memory_bytes: 0,
            status: "Sleep".to_owned(),
            run_time_seconds: 0,
            command: String::new(),
        }],
        disks: Vec::new(),
        networks: Vec::new(),
        services: vec![ServiceStatus {
            name: "api".to_owned(),
            target: "http://x".to_owned(),
            state: HealthState::Healthy,
            latency_ms: Some(3),
            status_code: Some(200),
            checked_at: Timestamp { seconds: 1_700_000_000, nanos: 0 },
            message: None,
        }],
        sockets: vec![SocketSnapshot {
            protocol: SocketProtocol::Udp,
            local_address: "0.0.0.0".to_owned(),
            local_port: 53,
            remote_address: Some("10.0.0.1".to_owned()),
            remote_port: Some(5353),
            state: "ESTABLISHED".to_owned(),
            associated_pids: vec![7],
            process_names: vec!["dns".to_owned()],
        }],
    }
}

#[test]
fn redacts_sensitive_snapshot_fields() {
    let mut collector = DemoCollector::new();
    let snapshot = redact(demo_sample(&mut collector));

    assert_eq!(snapshot.host_name, "[redacted]");
    assert!(snapshot
        .processes
        .iter()
        .all(|process| process.command == "[redacted]"));
    assert!(snapshot
        .sockets
        .iter()
        .all(|socket| socket.local_address == "[redacted]"));
    assert!(snapshot
        .services
        .iter()
        .all(|service| service.target == "[redacted]"));
}

#[test]
fn redaction_keeps_empty_commands_and_other_fields() {
    let before = small_snapshot();
    let after = redact(before.clone());
    assert_eq!(after.processes[0].command, "");
    assert_eq!(after.processes[0].name, "init");
    assert_eq!(after.sockets[0].remote_address.as_deref(), Some(REDACTED));
    assert_eq!(after.sockets[0].local_port, 53);
    assert_eq!(after.services[0].name, "api");
    assert_eq!(after.os_name, before.os_name);
    assert_eq!(after.uptime_seconds, before.uptime_seconds);
    let twice = redact(after.clone());
    assert_eq!(twice.host_name, after.host_name);
    assert_eq!(twice.sockets[0].local_address, after.sockets[0].local_address);
    let unchanged = shared_form(before.clone(), false);
    assert_eq!(unchanged.host_name, "box");
    assert_eq!(shared_form(before, true).host_name, REDACTED);
}

#[test]
fn text_report_lists_every_section() {
    let report = text(&small_snapshot());
    let expected = "Windorion Sentry diagnostic report\n\
Generated: 2023-11-14T22:13:20+00:00\n\
Host: box\n\
OS: Linux\n\
Kernel: 6.1\n\
Uptime: 1d 1h 1m\n\
CPU: 25.6%\n\
Load: 1.24 1.08 0.92\n\
Memory: 8.0 GiB / 16.0 GiB (50.0%)\n\
Processes: 1\n\
Disks: 0\n\
Network interfaces: 0\n\
Ports and sockets: 1\n\
Service checks: 1\n\
\n\
Services:\n\
- api: Healthy (http://x)\n";
    assert_eq!(report, expected);
}

#[test]
fn text_report_without_uptime_or_services() {
    let mut snapshot = small_snapshot();
    snapshot.uptime_seconds = None;
    snapshot.services.clear();
    let report = text(&snapshot);
    assert!(report.contains("Uptime: unavailable\n"));
    assert!(report.ends_with("Service checks: 0\n"));
}

#[test]
fn timestamps_are_written_as_rfc3339() {
    assert_eq!(
        rfc3339(Timestamp { seconds: 0, nanos: 0 }),
        "1970-01-01T00:00:00+00:00"
    );
    assert_eq!(
        rfc3339(Timestamp { seconds: 1_700_000_000, nanos: 500_000_000 }),
        "2023-11-14T22:13:20.500+00:00"
    );
}

#[test]
fn report_files_are_named_by_time() {
    assert_eq!(
        report_file_name(1_700_000_000).as_deref(),
        Some("wsentry-report-20231114-221320.json")
    );
}

#[test]
fn byte_sizes_use_binary_units() {
    assert_eq!(bytes(0), "0 B");
    assert_eq!(bytes(1023), "1023 B");
    assert_eq!(bytes(1024), "1.0 KiB");
    assert_eq!(bytes(1536), "1.5 KiB");
    assert_eq!(bytes(1280), "1.2 KiB");
    assert_eq!(bytes(1_048_576), "1.0 MiB");
    assert_eq!(bytes(1_240_000_000), "1.2 GiB");
    assert_eq!(bytes(u64::MAX), "16.0 EiB");
}

#[test]
fn durations_show_their_two_largest_units() {
    assert_eq!(duration(59), "0m 59s");
    assert_eq!(duration(61), "1m 1s");
    assert_eq!(duration(3_600), "1h 0m");
    assert_eq!(duration(90_061), "1d 1h 1m");
}

#[test]
fn fixed_point_values_round_half_to_even() {
    assert_eq!(percent(1, 3), 333);
    assert_eq!(percent(5, 0), 0);
    assert_eq!(tenths(333), "33.3");
    assert_eq!(tenths(5), "0.5");
    assert_eq!(hundredths(5), "0.05");
    assert_eq!(hundredths(124), "1.24");
    assert_eq!(rounded_quotient(25, 10), 2);
    assert_eq!(rounded_quotient(35, 10), 4);
    assert_eq!(rounded_quotient(26, 10), 3);
    assert_eq!(rounded_quotient(24, 10), 2);
}
