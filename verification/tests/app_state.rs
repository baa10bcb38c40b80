use wsentry::action::Action;
use wsentry::app::{App, InputMode, Tab};
use wsentry::collector::DemoCollector;
use wsentry::config::AppConfig;
use wsentry::logs::LogBatch;
use wsentry::model::{LogEntry, LogLevel, SystemSnapshot, Timestamp};
use wsentry::runtime::{RuntimeCommand, RuntimeUpdate};
use wsentry::terminal::KeyEffect;

fn demo_sample(collector: &mut DemoCollector) -> SystemSnapshot {
    let tick = collector.advance();
    let wave = ((tick as f32 / 4.0).sin() + 1.0) / 2.0;
    let cpu = 28.0 + wave * 46.0;
    let memory_total: u64 = 16 * 1024 * 1024 * 1024;
    let memory_used = (memory_total as f32 * (0.52 + wave * 0.12)) as u64;
    collector.snapshot(
        (cpu * 100.0).round() as u32,
        memory_used,
        Timestamp { seconds: 1_700_000_000, nanos: 0 },
    )
}

fn entry(sequence: u64, source: &str, level: LogLevel, line: &str) -> LogEntry {
    LogEntry {
        sequence,
        source: source.to_owned(),
        level,
        line: line.to_owned(),
    }
}

#[test]
fn search_filters_processes() {
    let mut collector = DemoCollector::new();
    let mut app = App::new(
        demo_sample(&mut collector),
        AppConfig::default(),
        None,
        Tab::Processes,
    );
    app.search = "postgres".to_owned();
    assert_eq!(app.visible_processes().len(), 1);
    assert_eq!(app.visible_processes()[0].name, "postgres");
}

#[test]
fn history_is_bounded() {
    let mut collector = DemoCollector::new();
    let config = AppConfig {
        history_points: 10,
        ..AppConfig::default()
    };
    let mut app = App::new(demo_sample(&mut collector), config, None, Tab::Overview);
    for _ in 0..20 {
        app.update_snapshot(demo_sample(&mut collector));
    }
    assert_eq!(app.history.len(), 10);
}

#[test]
fn log_search_filters_source_level_and_message() {
    let mut collector = DemoCollector::new();
    let mut app = App::new(
        demo_sample(&mut collector),
        AppConfig::default(),
        None,
        Tab::Logs,
    );
    app.update_logs(LogBatch {
        entries: vec![entry(1, "api", LogLevel::Error, "database unavailable")],
        sources: Vec::new(),
    });
    app.search = "error".to_owned();
    assert_eq!(app.visible_logs().len(), 1);
    app.search = "worker".to_owned();
    assert!(app.visible_logs().is_empty());
}

#[test]
fn a_new_app_starts_live_with_one_sample() {
    let mut collector = DemoCollector::new();
    let app = App::new(
        demo_sample(&mut collector),
        AppConfig::default(),
        Some("/srv/project/wsentry.toml".to_owned()),
        Tab::Ports,
    );
    assert!(app.running);
    assert!(!app.paused);
    assert_eq!(app.tab, Tab::Ports);
    assert_eq!(app.input_mode, InputMode::Normal);
    assert_eq!(app.history.len(), 1);
    assert!(app.logs.is_empty());
    assert!(app.message.is_none());
}

#[test]
fn empty_search_shows_every_item() {
    let mut collector = DemoCollector::new();
    let app = App::new(
        demo_sample(&mut collector),
        AppConfig::default(),
        None,
        Tab::Processes,
    );
    assert_eq!(app.visible_processes().len(), app.snapshot.processes.len());
    assert_eq!(app.visible_sockets().len(), app.snapshot.sockets.len());
}

#[test]
fn search_ignores_case_and_matches_commands_and_pids() {
    let mut collector = DemoCollector::new();
    let mut app = App::new(
        demo_sample(&mut collector),
        AppConfig::default(),
        None,
        Tab::Processes,
    );
    app.search = "QUEUE".to_owned();
    let shown = app.visible_processes();
    assert_eq!(shown.len(), 1);
    assert_eq!(shown[0].name, "worker");
    app.search = "4377".to_owned();
    assert_eq!(app.visible_processes()[0].name, "postgres");
}

#[test]
fn moving_stops_at_both_ends_of_the_list() {
    let mut collector = DemoCollector::new();
    let mut app = App::new(
        demo_sample(&mut collector),
        AppConfig::default(),
        None,
        Tab::Processes,
    );
    app.apply(Action::MoveUp);
    assert_eq!(app.selected_process, 0);
    for _ in 0..5 {
        app.apply(Action::MoveDown);
    }
    assert_eq!(app.selected_process, 2);
    app.apply(Action::First);
    assert_eq!(app.selected_process, 0);
    app.apply(Action::Last);
    assert_eq!(app.selected_process, 2);
}

#[test]
fn tabs_cycle_and_clear_the_search() {
    let mut collector = DemoCollector::new();
    let mut app = App::new(
        demo_sample(&mut collector),
        AppConfig::default(),
        None,
        Tab::Overview,
    );
    app.apply(Action::StartSearch);
    app.apply(Action::SearchChar('a'));
    assert_eq!(app.search, "a");
    app.apply(Action::NextTab);
    assert_eq!(app.tab, Tab::Processes);
    assert_eq!(app.search, "");
    assert_eq!(app.input_mode, InputMode::Normal);
    app.apply(Action::PreviousTab);
    app.apply(Action::PreviousTab);
    assert_eq!(app.tab, Tab::Disks);
}

#[test]
fn backspace_removes_the_last_search_character() {
    let mut collector = DemoCollector::new();
    let mut app = App::new(
        demo_sample(&mut collector),
        AppConfig::default(),
        None,
        Tab::Processes,
    );
    app.apply(Action::StartSearch);
    app.apply(Action::SearchChar('p'));
    app.apply(Action::SearchChar('g'));
    app.apply(Action::SearchBackspace);
    assert_eq!(app.search, "p");
    app.apply(Action::SearchBackspace);
    app.apply(Action::SearchBackspace);
    assert_eq!(app.search, "");
}

#[test]
fn details_open_only_on_views_with_details() {
    let mut collector = DemoCollector::new();
    let mut app = App::new(
        demo_sample(&mut collector),
        AppConfig::default(),
        None,
        Tab::Network,
    );
    app.apply(Action::OpenDetails);
    assert!(!app.show_details);
    app.tab = Tab::Services;
    app.apply(Action::OpenDetails);
    assert!(app.show_details);
    app.apply(Action::CloseOverlay);
    assert!(!app.show_details);
}

#[test]
fn keys_that_need_the_worker_say_so() {
    let mut collector = DemoCollector::new();
    let mut app = App::new(
        demo_sample(&mut collector),
        AppConfig::default(),
        None,
        Tab::Overview,
    );
    assert_eq!(
        app.handle_key(Action::TogglePause),
        KeyEffect::Send(RuntimeCommand::SetPaused(true))
    );
    assert!(app.paused);
    assert_eq!(app.message.as_deref(), Some("Live updates paused"));
    assert_eq!(
        app.handle_key(Action::TogglePause),
        KeyEffect::Send(RuntimeCommand::SetPaused(false))
    );
    assert_eq!(app.message.as_deref(), Some("Live updates resumed"));
    assert_eq!(
        app.handle_key(Action::Refresh),
        KeyEffect::Send(RuntimeCommand::Refresh)
    );
    assert!(!app.force_refresh);
    assert_eq!(app.handle_key(Action::ExportReport), KeyEffect::ExportReport);
    assert_eq!(app.handle_key(Action::MoveDown), KeyEffect::Nothing);
    assert_eq!(app.handle_key(Action::Quit), KeyEffect::Nothing);
    assert!(!app.running);
}

#[test]
fn export_outcomes_become_the_status_message() {
    let mut collector = DemoCollector::new();
    let mut app = App::new(
        demo_sample(&mut collector),
        AppConfig::default(),
        None,
        Tab::Overview,
    );
    app.record_export(Ok("/work/wsentry-report-20240101-000000.json".to_owned()));
    assert_eq!(
        app.message.as_deref(),
        Some("Report saved to /work/wsentry-report-20240101-000000.json")
    );
    app.record_export(Err("permission denied".to_owned()));
    assert_eq!(app.message.as_deref(), Some("Export failed: permission denied"));
}

#[test]
fn worker_updates_reach_the_state() {
    let mut collector = DemoCollector::new();
    let mut app = App::new(
        demo_sample(&mut collector),
        AppConfig::default(),
        None,
        Tab::Services,
    );
    app.selected_service = 2;
    app.handle_update(RuntimeUpdate::Services(Vec::new()));
    assert!(app.snapshot.services.is_empty());
    assert_eq!(app.selected_service, 0);
    app.handle_update(RuntimeUpdate::Sockets(Err("permission denied".to_owned())));
    assert_eq!(app.socket_error.as_deref(), Some("permission denied"));
    assert_eq!(app.snapshot.sockets.len(), 2);
    app.handle_update(RuntimeUpdate::Sockets(Ok(Vec::new())));
    assert!(app.socket_error.is_none());
    assert!(app.snapshot.sockets.is_empty());
    app.handle_update(RuntimeUpdate::Error("collector failed".to_owned()));
    assert_eq!(app.message.as_deref(), Some("collector failed"));
    app.force_refresh = true;
    app.handle_update(RuntimeUpdate::Snapshot(Box::new(demo_sample(&mut collector))));
    assert!(!app.force_refresh);
    assert!(app.snapshot.services.is_empty());
    assert_eq!(app.history.len(), 2);
}

#[test]
fn log_selection_follows_new_lines_at_the_end() {
    let mut collector = DemoCollector::new();
    let mut app = App::new(
        demo_sample(&mut collector),
        AppConfig::default(),
        None,
        Tab::Logs,
    );
    app.update_logs(LogBatch {
        entries: vec![
            entry(1, "api", LogLevel::Info, "one"),
            entry(2, "api", LogLevel::Info, "two"),
        ],
        sources: Vec::new(),
    });
    assert_eq!(app.selected_log, 1);
    app.update_logs(LogBatch {
        entries: vec![entry(3, "api", LogLevel::Info, "three")],
        sources: Vec::new(),
    });
    assert_eq!(app.selected_log, 2);
    app.apply(Action::First);
    app.update_logs(LogBatch {
        entries: vec![entry(4, "api", LogLevel::Info, "four")],
        sources: Vec::new(),
    });
    assert_eq!(app.selected_log, 0);
}

#[test]
fn log_buffer_keeps_the_newest_lines() {
    let mut collector = DemoCollector::new();
    let config = AppConfig {
        log_buffer_lines: 100,
        ..AppConfig::default()
    };
    let mut app = App::new(demo_sample(&mut collector), config, None, Tab::Logs);
    let entries = (1..=150)
        .map(|n| entry(n, "api", LogLevel::Info, "line"))
        .collect::<Vec<_>>();
    app.update_logs(LogBatch {
        entries,
        sources: Vec::new(),
    });
    assert_eq!(app.logs.len(), 100);
    assert_eq!(app.logs[0].sequence, 51);
    assert_eq!(app.logs[99].sequence, 150);
}

#[test]
fn warnings_name_thresholds_and_failures() {
    let mut collector = DemoCollector::new();
    let mut app = App::new(
        demo_sample(&mut collector),
        AppConfig::default(),
        None,
        Tab::Overview,
    );
    let warnings = app.warnings();
    assert_eq!(warnings, vec!["1 service check(s) failing".to_owned()]);
    app.snapshot.cpu_usage_hundredths = 9_149;
    app.socket_error = Some("denied".to_owned());
    let warnings = app.warnings();
    assert_eq!(warnings[0], "CPU 91%");
    assert_eq!(warnings.last().map(String::as_str), Some("Port collection unavailable"));
}

#[test]
fn filter_key_returns_to_the_current_filter() {
    let mut collector = DemoCollector::new();
    let mut app = App::new(
        demo_sample(&mut collector),
        AppConfig::default(),
        None,
        Tab::Processes,
    );
    app.apply(Action::StartSearch);
    app.apply(Action::SearchChar('w'));
    app.apply(Action::FinishSearch);
    assert_eq!(app.input_mode, InputMode::Normal);
    assert_eq!(app.handle_key(Action::Filter), KeyEffect::Nothing);
    assert_eq!(app.input_mode, InputMode::Search);
    assert_eq!(app.search, "w");
    app.apply(Action::SearchChar('o'));
    assert_eq!(app.search, "wo");
    assert_eq!(app.visible_processes().len(), 1);
}

#[test]
fn warning_percentages_round_halves_to_even() {
    let mut collector = DemoCollector::new();
    let mut app = App::new(
        demo_sample(&mut collector),
        AppConfig::default(),
        None,
        Tab::Overview,
    );
    app.config.thresholds.cpu_percent = 0;
    app.snapshot.cpu_usage_hundredths = 7_250;
    assert_eq!(app.warnings()[0], "CPU 72%");
    app.snapshot.cpu_usage_hundredths = 7_350;
    assert_eq!(app.warnings()[0], "CPU 74%");
    app.snapshot.cpu_usage_hundredths = 7_251;
    assert_eq!(app.warnings()[0], "CPU 73%");
    app.config.thresholds.memory_percent = 0;
    app.snapshot.memory_used_bytes = 1;
    app.snapshot.memory_total_bytes = 8;
    assert_eq!(app.warnings()[1], "Memory 12%");
}
