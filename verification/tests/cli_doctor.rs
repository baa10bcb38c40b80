use wsentry::app::Tab;
use wsentry::cli::{check_exit_code, check_line, interactive_start, no_services_message, Command};
use wsentry::doctor::{assemble, exit_code, inspect, text, DoctorCheck, DoctorReport, Observations};
use wsentry::health::unconfigured_status;
use wsentry::model::{HealthState, Timestamp};
use wsentry::terminal::RunMode;

const NOW: Timestamp = Timestamp { seconds: 1_700_000_000, nanos: 0 };

fn observations(config: Option<(String, Result<(), String>)>) -> Observations {
    Observations {
        version: "0.2.0".to_owned(),
        os: "linux".to_owned(),
        architecture: "x86_64".to_owned(),
        system_collection_supported: true,
        stdout_is_terminal: false,
        config,
    }
}

#[test]
fn interactive_commands_pick_their_first_view() {
    assert_eq!(interactive_start(&None), Some((RunMode::Local, Tab::Overview)));
    assert_eq!(
        interactive_start(&Some(Command::Demo)),
        Some((RunMode::Demo, Tab::Overview))
    );
    assert_eq!(
        interactive_start(&Some(Command::Ports)),
        Some((RunMode::Local, Tab::Ports))
    );
    assert_eq!(
        interactive_start(&Some(Command::Doctor { json: false })),
        None
    );
}

#[test]
fn check_lines_align_their_columns() {
    let mut status = unconfigured_status("api", NOW);
    status.state = HealthState::Healthy;
    status.latency_ms = Some(18);
    status.target = "http://x".to_owned();
    assert_eq!(
        check_line(&status),
        "Healthy    api                  18ms     http://x"
    );
    status.latency_ms = None;
    assert_eq!(
        check_line(&status),
        "Healthy    api                  \u{2014}        http://x"
    );
}

#[test]
fn failed_checks_set_the_exit_status() {
    let mut statuses = vec![unconfigured_status("a", NOW), unconfigured_status("b", NOW)];
    assert_eq!(check_exit_code(&statuses), 0);
    statuses[1].state = HealthState::Unhealthy;
    assert_eq!(check_exit_code(&statuses), 2);
    assert_eq!(
        no_services_message(Some("/p/wsentry.toml")),
        "no services configured in /p/wsentry.toml"
    );
    assert_eq!(no_services_message(None), "no services configured");
}

#[test]
fn doctor_reports_every_check() {
    let report = assemble(observations(None), true);
    assert_eq!(report.checks.len(), 4);
    assert!(report.config_valid);
    assert_eq!(
        report.checks[3].detail,
        "no wsentry.toml found; defaults will be used"
    );
    assert_eq!(
        report.checks[1].detail,
        "stdout is not interactive; use report/check for scripts"
    );
    assert_eq!(exit_code(&report), 0);
    assert_eq!(
        text(&report),
        "wsentry doctor 0.2.0 (linux x86_64)\n\
OK system collector   supported on this platform\n\
OK terminal           stdout is not interactive; use report/check for scripts\n\
OK port collector     native socket discovery is supported\n\
OK configuration      no wsentry.toml found; defaults will be used\n"
    );
}

#[test]
fn doctor_flags_a_broken_configuration() {
    let report = assemble(
        observations(Some((
            "/p/wsentry.toml".to_owned(),
            Err("invalid configuration in /p/wsentry.toml: history_points must be greater than zero"
                .to_owned()),
        ))),
        false,
    );
    assert!(!report.config_valid);
    assert!(!report.checks[2].ok);
    assert!(!report.checks[3].ok);
    assert_eq!(exit_code(&report), 1);
    let loaded = inspect(observations(Some(("/p/wsentry.toml".to_owned(), Ok(())))));
    assert_eq!(loaded.checks[3].detail, "loaded /p/wsentry.toml");
    assert_eq!(loaded.config_path.as_deref(), Some("/p/wsentry.toml"));
}

#[test]
fn doctor_text_marks_failures() {
    let report = DoctorReport {
        version: "1".to_owned(),
        os: "os".to_owned(),
        architecture: "arch".to_owned(),
        system_collection_supported: false,
        stdout_is_terminal: true,
        config_path: None,
        config_valid: true,
        checks: vec![DoctorCheck {
            name: "system collector".to_owned(),
            ok: false,
            detail: "sysinfo does not support this platform".to_owned(),
        }],
    };
    assert_eq!(
        text(&report),
        "wsentry doctor 1 (os arch)\n!! system collector   sysinfo does not support this platform\n"
    );
}
