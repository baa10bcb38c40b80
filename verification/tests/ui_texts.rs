use wsentry::app::{App, Tab};
use wsentry::collector::DemoCollector;
use wsentry::config::AppConfig;
use wsentry::logs::LogBatch;
use wsentry::model::{DiskSnapshot, LogEntry, LogLevel, SystemSnapshot, Timestamp};
use wsentry::ui::{
    details, disk_level, disk_row, header_title, history_series, identity_lines, log_row,
    logs_notice, logs_title, ports_notice, ports_title, process_row, processes_title,
    resource_gauges, service_row, services_notice, socket_row, truncate, Level,
};

fn demo_sample(collector: &mut DemoCollector) -> SystemSnapshot {
    let tick = collector.advance();
    let wave = ((tick as f32 / 4.0).sin() + 1.0) / 2.0;
    let cpu = 28.0 + wave * 46.0;
    let memory_total: u64 = 16 * 1024 * 1024 * 1024;
    let memory_used = (memory_total as f32 * (0.52 + wave * 0.12)) as u64;
    collector.snapshot(
        (cpu * 100.0).round() as u32,
        memory_used,
        Timestamp { seconds: 1_700_000_000, nanos: 0 },
    )
}

fn demo_app(tab: Tab) -> App {
    let mut collector = DemoCollector::new();
    App::new(demo_sample(&mut collector), AppConfig::default(), None, tab)
}

#[test]
fn renders_demo_ports() {
    let app = demo_app(Tab::Ports);
    let title = ports_title(&app);
    let rows: Vec<Vec<String>> = app.visible_sockets().into_iter().map(socket_row).collect();
    assert!(title.contains("Ports and sockets"));
    assert!(rows.iter().flatten().any(|cell| cell.contains("8080")));
    assert!(rows.iter().flatten().any(|cell| cell.contains("api-server")));
}

#[test]
fn renders_tailed_logs() {
    let mut app = demo_app(Tab::Logs);
    app.update_logs(LogBatch {
        entries: vec![LogEntry {
            sequence: 1,
            source: "api".to_owned(),
            level: LogLevel::Warn,
            line: "queue depth is high".to_owned(),
        }],
        sources: Vec::new(),
    });
    let title = logs_title(&app);
    let rows: Vec<Vec<String>> = app.visible_logs().into_iter().map(log_row).collect();
    assert!(title.contains("Logs"));
    assert!(rows.iter().flatten().any(|cell| cell.contains("WARN")));
    assert!(rows
        .iter()
        .flatten()
        .any(|cell| cell.contains("queue depth is high")));
}

#[test]
fn long_texts_are_cut_with_an_ellipsis() {
    assert_eq!(truncate("Windorion OS 1.0", 20), "Windorion OS 1.0");
    assert_eq!(truncate("Windorion OS 1.0", 9), "Windorio\u{2026}");
    assert_eq!(truncate("Windorion", 1), "\u{2026}");
    assert_eq!(truncate("Windorion", 0), "\u{2026}");
    assert_eq!(truncate("", 0), "");
}

#[test]
fn titles_show_counts_filters_and_state() {
    let mut app = demo_app(Tab::Processes);
    assert_eq!(processes_title(&app), " Processes \u{b7} 3 total ");
    app.search = "pg".to_owned();
    assert_eq!(processes_title(&app), " Processes \u{b7} filter: pg ");
    assert_eq!(ports_title(&app), " Ports and sockets \u{b7} filter: pg ");
    app.search.clear();
    assert_eq!(logs_title(&app), " Logs \u{b7} 0 buffered ");
    assert_eq!(
        header_title("demo-workstation", "local", true),
        " WSENTRY \u{b7} demo-workstation \u{b7} local \u{b7} PAUSED "
    );
}

#[test]
fn rows_hold_the_formatted_values() {
    let app = demo_app(Tab::Services);
    let process = process_row(&app.snapshot.processes[0]);
    assert_eq!(process[0], "4201");
    assert_eq!(process[1], "api-server");
    assert_eq!(process[3], "1.2 GiB");
    let service = service_row(&app.snapshot.services[2]);
    assert_eq!(
        service,
        vec![
            "\u{25cf}",
            "worker",
            "Unhealthy",
            "302 ms",
            "\u{2014}",
            "127.0.0.1:9000",
            "connection refused"
        ]
    );
    let disk = disk_row(&app.snapshot.disks[0]);
    assert_eq!(disk[4], "306.0 GiB");
    assert_eq!(disk[5], "512.0 GiB");
    assert_eq!(disk[6], "59.8%");
    assert_eq!(disk_level(&app.snapshot.disks[0]), Level::Good);
    let socket = socket_row(&app.snapshot.sockets[0]);
    assert_eq!(socket[0], "TCP");
    assert_eq!(socket[2], "8080");
}

#[test]
fn empty_views_explain_themselves() {
    let mut app = demo_app(Tab::Services);
    assert_eq!(services_notice(&app), None);
    app.snapshot.services.clear();
    assert_eq!(
        services_notice(&app),
        Some("No services configured. Run `wsentry init` or add [[service]] entries to wsentry.toml.")
    );
    assert!(logs_notice(&app).is_some());
    assert_eq!(ports_notice(&app), None);
    app.snapshot.sockets.clear();
    assert_eq!(
        ports_notice(&app).as_deref(),
        Some("No listening ports or active sockets were discovered for visible processes.")
    );
    app.socket_error = Some("permission denied".to_owned());
    assert_eq!(ports_notice(&app).as_deref(), Some("permission denied"));
}

#[test]
fn detail_panels_describe_the_selection() {
    let mut app = demo_app(Tab::Processes);
    let panel = details(&app).expect("processes have details");
    assert_eq!(panel.title, " Process 4201 ");
    assert_eq!(panel.lines[1], "PID       4201");
    assert_eq!(panel.lines[9], "./api-server --environment development");
    app.tab = Tab::Services;
    app.selected_service = 2;
    let panel = details(&app).expect("services have details");
    assert_eq!(panel.title, " Service worker ");
    assert_eq!(panel.lines[4], "Checked   2023-11-14T22:13:20+00:00");
    assert_eq!(panel.lines[6], "connection refused");
    app.tab = Tab::Ports;
    let panel = details(&app).expect("ports have details");
    assert_eq!(panel.lines[1], "Local     127.0.0.1:8080");
    app.tab = Tab::Logs;
    let panel = details(&app).expect("logs have details");
    assert_eq!(panel.lines, vec!["No log selected".to_owned()]);
    app.tab = Tab::Disks;
    assert!(details(&app).is_none());
}

#[test]
fn overview_panels_summarise_the_machine() {
    let app = demo_app(Tab::Overview);
    let lines = identity_lines(&app.snapshot, 14);
    assert_eq!(lines[0], "demo-workstation");
    assert_eq!(lines[1], "Windorion\u{2026}");
    assert_eq!(lines[2], "Kernel  demo-kernel");
    assert_eq!(lines[4], "Load    1.24  1.08  0.92");
    let gauges = resource_gauges(&app.snapshot);
    assert_eq!(gauges.len(), 3);
    assert!(gauges[0].label.starts_with("CPU "));
    assert_eq!(gauges[2].label, "DISK  59.8%");
    let (cpu, memory, network) = history_series(&app);
    assert_eq!(cpu.len(), 1);
    assert_eq!(memory.len(), 1);
    assert_eq!(network[0], app.history[0].network_rx + app.history[0].network_tx);
}

#[test]
fn gauges_use_the_fullest_disk() {
    let disk = |total: u64, available: u64| DiskSnapshot {
        name: "d".to_owned(),
        mount_point: "/".to_owned(),
        file_system: "ext4".to_owned(),
        kind: "SSD".to_owned(),
        total_bytes: total,
        available_bytes: available,
    };
    let mut collector = DemoCollector::new();
    let mut snapshot = demo_sample(&mut collector);
    snapshot.disks = vec![disk(100, 50), disk(0, 0), disk(1000, 40), disk(10, 9)];
    let gauges = resource_gauges(&snapshot);
    assert_eq!(gauges[2].tenths, 960);
    assert_eq!(gauges[2].level, Level::Bad);
    snapshot.disks.clear();
    assert_eq!(resource_gauges(&snapshot)[2].label, "DISK   0.0%");
}
