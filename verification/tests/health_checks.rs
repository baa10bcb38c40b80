use wsentry::config::ServiceConfig;
use wsentry::health::{
    http_status, order_by_name, plan_check, tcp_status, unconfigured_status, CheckPlan,
    HttpOutcome, TcpOutcome,
};
use wsentry::model::{HealthState, Timestamp};

const NOW: Timestamp = Timestamp { seconds: 1_700_000_000, nanos: 0 };

fn service(name: &str, health: Option<&str>, tcp: Option<&str>, timeout: &str) -> ServiceConfig {
    ServiceConfig {
        name: name.to_owned(),
        health: health.map(str::to_owned),
        tcp: tcp.map(str::to_owned),
        interval: "30s".to_owned(),
        timeout: timeout.to_owned(),
    }
}

#[test]
fn plans_follow_the_configured_target() {
    match plan_check(&service("api", Some("http://localhost/health"), None, "2s")) {
        CheckPlan::Http { url, timeout } => {
            assert_eq!(url, "http://localhost/health");
            assert_eq!(timeout, (2, 0));
        }
        other => panic!("unexpected plan {other:?}"),
    }
    match plan_check(&service("db", None, Some("localhost:5432"), "soon")) {
        CheckPlan::Tcp { target, timeout } => {
            assert_eq!(target, "localhost:5432");
            assert_eq!(timeout, (3, 0));
        }
        other => panic!("unexpected plan {other:?}"),
    }
    assert!(matches!(
        plan_check(&service("incomplete", None, None, "1s")),
        CheckPlan::Unconfigured
    ));
}

#[test]
fn services_without_a_target_are_unknown() {
    let status = unconfigured_status("incomplete", NOW);
    assert_eq!(status.state, HealthState::Unknown);
    assert_eq!(status.target, "not configured");
    assert_eq!(
        status.message.as_deref(),
        Some("service requires either `health` or `tcp`")
    );
}

#[test]
fn http_success_codes_are_healthy() {
    let ok = http_status(
        "api",
        "http://x/health",
        HttpOutcome::Response {
            code: 204,
            status_text: "204 No Content".to_owned(),
        },
        12,
        NOW,
    );
    assert_eq!(ok.state, HealthState::Healthy);
    assert_eq!(ok.status_code, Some(204));
    assert!(ok.message.is_none());
    let bad = http_status(
        "api",
        "http://x/health",
        HttpOutcome::Response {
            code: 503,
            status_text: "503 Service Unavailable".to_owned(),
        },
        12,
        NOW,
    );
    assert_eq!(bad.state, HealthState::Unhealthy);
    assert_eq!(bad.message.as_deref(), Some("HTTP 503 Service Unavailable"));
    let down = http_status(
        "api",
        "http://x/health",
        HttpOutcome::Failed("connection refused".to_owned()),
        3,
        NOW,
    );
    assert_eq!(down.state, HealthState::Unhealthy);
    assert_eq!(down.status_code, None);
    assert_eq!(down.latency_ms, Some(3));
}

#[test]
fn tcp_outcomes_set_the_state() {
    let up = tcp_status("db", "localhost:5432", TcpOutcome::Connected, 1, NOW, (3, 0));
    assert_eq!(up.state, HealthState::Healthy);
    assert!(up.message.is_none());
    let late = tcp_status("db", "localhost:5432", TcpOutcome::TimedOut, 3000, NOW, (3, 0));
    assert_eq!(late.state, HealthState::Unhealthy);
    assert_eq!(late.message.as_deref(), Some("timed out after 3s"));
    let refused = tcp_status(
        "db",
        "localhost:5432",
        TcpOutcome::Failed("refused".to_owned()),
        1,
        NOW,
        (3, 0),
    );
    assert_eq!(refused.message.as_deref(), Some("refused"));
}

#[test]
fn results_are_ordered_by_name() {
    let statuses = vec![
        unconfigured_status("worker", NOW),
        unconfigured_status("api", NOW),
        unconfigured_status("db", NOW),
    ];
    let names: Vec<String> = order_by_name(statuses)
        .into_iter()
        .map(|s| s.name)
        .collect();
    assert_eq!(names, vec!["api", "db", "worker"]);
}

#[test]
fn timeouts_are_parsed_and_written_by_humantime() {
    match plan_check(&service("db", None, Some("localhost:5432"), "1m 30s")) {
        CheckPlan::Tcp { timeout, .. } => assert_eq!(timeout, (90, 0)),
        other => panic!("unexpected plan {other:?}"),
    }
    match plan_check(&service("db", None, Some("localhost:5432"), "250ms")) {
        CheckPlan::Tcp { timeout, .. } => assert_eq!(timeout, (0, 250_000_000)),
        other => panic!("unexpected plan {other:?}"),
    }
    let late = tcp_status("db", "localhost:5432", TcpOutcome::TimedOut, 1, NOW, (9_420, 0));
    assert_eq!(late.message.as_deref(), Some("timed out after 2h 37m"));
}

/// The check results for services that name no target, as the check run produces them:
/// each planned, reported, and the results listed by name.
fn check_without_network(services: &[ServiceConfig]) -> Vec<wsentry::model::ServiceStatus> {
    let statuses = services
        .iter()
        .map(|service| match plan_check(service) {
            CheckPlan::Unconfigured => unconfigured_status(&service.name, NOW),
            other => panic!("this helper runs no network probe, not {other:?}"),
        })
        .collect();
    order_by_name(statuses)
}

#[test]
fn returns_checks_in_stable_name_order() {
    let service = |name: &str| ServiceConfig {
        name: name.to_owned(),
        health: None,
        tcp: None,
        interval: "30s".to_owned(),
        timeout: "1s".to_owned(),
    };

    let statuses = check_without_network(&[service("worker"), service("api")]);

    assert_eq!(statuses.len(), 2);
    assert_eq!(statuses[0].name, "api");
    assert_eq!(statuses[1].name, "worker");
}

#[test]
fn reports_missing_targets_as_unknown() {
    let service = ServiceConfig {
        name: "incomplete".to_owned(),
        health: None,
        tcp: None,
        interval: "30s".to_owned(),
        timeout: "1s".to_owned(),
    };

    let statuses = check_without_network(&[service]);

    assert_eq!(statuses[0].state, HealthState::Unknown);
    assert!(statuses[0].message.is_some());
}

#[test]
fn timeouts_with_too_many_digits_fall_back_to_the_default() {
    match plan_check(&service("db", None, Some("localhost:5432"), "18446744073709551615s 1000000000ns")) {
        CheckPlan::Tcp { timeout, .. } => assert_eq!(timeout, (3, 0)),
        other => panic!("unexpected plan {other:?}"),
    }
}
