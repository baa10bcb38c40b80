use wsentry::config::{AppConfig, ServiceConfig};
use wsentry::model::LogLevel;
use wsentry::runtime::{
    demo_log_batch, log_interval_ms, service_interval, socket_interval_ms, system_interval_ms,
    RuntimeCommand, WorkerSchedule, WorkerStep,
};

fn service(interval: &str) -> ServiceConfig {
    ServiceConfig {
        name: "api".to_owned(),
        health: None,
        tcp: Some("localhost:80".to_owned()),
        interval: interval.to_owned(),
        timeout: "1s".to_owned(),
    }
}

#[test]
fn demo_logs_cycle_through_levels() {
    assert_eq!(demo_log_batch(1).entries[0].level, LogLevel::Info);
    assert_eq!(demo_log_batch(3).entries[0].level, LogLevel::Warn);
    assert_eq!(demo_log_batch(5).entries[0].level, LogLevel::Error);
}

#[test]
fn demo_batches_repeat_every_five() {
    let first = demo_log_batch(2);
    let later = demo_log_batch(7);
    assert_eq!(first.entries[0].line, later.entries[0].line);
    assert_eq!(later.entries[0].sequence, 7);
    assert_eq!(demo_log_batch(5).entries[0].source, "worker");
    assert_eq!(demo_log_batch(4).entries[0].source, "api");
    assert_eq!(first.sources.len(), 2);
}

#[test]
fn pausing_stops_every_collector_and_resuming_restores_them() {
    let mut config = AppConfig::default();
    config.service.push(service("10s"));
    let mut schedule = WorkerSchedule::new(&config, false);
    assert!(schedule.collects_system());
    assert!(schedule.collects_sockets());
    assert!(schedule.checks_services());
    assert!(!schedule.follows_logs());
    assert_eq!(
        schedule.on_command(Some(RuntimeCommand::SetPaused(true))),
        WorkerStep::Continue
    );
    assert!(!schedule.collects_system());
    assert!(!schedule.collects_sockets());
    assert!(!schedule.checks_services());
    assert_eq!(
        schedule.on_command(Some(RuntimeCommand::SetPaused(false))),
        WorkerStep::Continue
    );
    assert!(schedule.checks_services());
}

#[test]
fn refresh_resets_timers_and_shutdown_stops() {
    let mut schedule = WorkerSchedule::new(&AppConfig::default(), true);
    assert!(!schedule.collects_sockets());
    assert!(schedule.follows_logs());
    assert_eq!(
        schedule.on_command(Some(RuntimeCommand::Refresh)),
        WorkerStep::ResetTimers
    );
    assert_eq!(
        schedule.on_command(Some(RuntimeCommand::Shutdown)),
        WorkerStep::Stop
    );
    assert_eq!(schedule.on_command(None), WorkerStep::Stop);
}

#[test]
fn demo_batches_come_in_order() {
    let mut schedule = WorkerSchedule::new(&AppConfig::default(), true);
    assert_eq!(schedule.next_demo_batch().entries[0].sequence, 1);
    assert_eq!(schedule.next_demo_batch().entries[0].sequence, 2);
}

#[test]
fn timer_periods_have_floors() {
    let mut config = AppConfig::default();
    assert_eq!(system_interval_ms(&config), 1_000);
    assert_eq!(socket_interval_ms(&config), 2_000);
    assert_eq!(log_interval_ms(&config), 500);
    config.refresh_interval_ms = 100;
    config.socket_refresh_interval_ms = 100;
    config.log_refresh_interval_ms = 50;
    assert_eq!(system_interval_ms(&config), 250);
    assert_eq!(socket_interval_ms(&config), 500);
    assert_eq!(log_interval_ms(&config), 100);
}

#[test]
fn services_are_checked_at_the_shortest_interval() {
    let mut config = AppConfig::default();
    assert_eq!(service_interval(&config), (30, 0));
    config.service.push(service("45s"));
    config.service.push(service("10s"));
    config.service.push(service("often"));
    assert_eq!(service_interval(&config), (10, 0));
    config.service.push(service("500ms"));
    assert_eq!(service_interval(&config), (2, 0));
}

#[test]
fn intervals_with_too_many_digits_are_skipped() {
    let mut config = AppConfig::default();
    config.service.push(service("18446744073709551615s 1000000000ns"));
    assert_eq!(service_interval(&config), (30, 0));
    config.service.push(service("12s"));
    assert_eq!(service_interval(&config), (12, 0));
}
