use wsentry::config::{
    accept, count_digits, default_interval, default_timeout, init_target, read_duration,
    starter_config, validate, AppConfig,
    ConfigError, LogConfig, ServiceConfig, Thresholds, CONFIG_FILE_NAME,
};

fn service(name: &str, health: Option<&str>, tcp: Option<&str>) -> ServiceConfig {
    ServiceConfig {
        name: name.to_owned(),
        health: health.map(str::to_owned),
        tcp: tcp.map(str::to_owned),
        interval: "10s".to_owned(),
        timeout: "1s".to_owned(),
    }
}

/// The configuration that a parsed starter file describes, read field by field.
fn from_table(table: &toml::Table) -> AppConfig {
    let mut config = AppConfig::default();
    let int = |key: &str| table.get(key).and_then(toml::Value::as_integer);
    if let Some(value) = int("refresh_interval_ms") {
        config.refresh_interval_ms = value as u64;
    }
    if let Some(value) = int("socket_refresh_interval_ms") {
        config.socket_refresh_interval_ms = value as u64;
    }
    if let Some(value) = int("log_refresh_interval_ms") {
        config.log_refresh_interval_ms = value as u64;
    }
    if let Some(value) = int("history_points") {
        config.history_points = value as usize;
    }
    if let Some(value) = int("log_buffer_lines") {
        config.log_buffer_lines = value as usize;
    }
    if let Some(thresholds) = table.get("thresholds").and_then(toml::Value::as_table) {
        let percent = |key: &str| {
            (thresholds.get(key).and_then(toml::Value::as_float).unwrap() * 100.0).round() as i64
        };
        config.thresholds = Thresholds {
            cpu_percent: percent("cpu_percent"),
            memory_percent: percent("memory_percent"),
            disk_percent: percent("disk_percent"),
        };
    }
    let text = |entry: &toml::Table, key: &str| {
        entry.get(key).and_then(toml::Value::as_str).map(str::to_owned)
    };
    for entry in table
        .get("service")
        .and_then(toml::Value::as_array)
        .into_iter()
        .flatten()
    {
        let entry = entry.as_table().unwrap();
        config.service.push(ServiceConfig {
            name: text(entry, "name").unwrap(),
            health: text(entry, "health"),
            tcp: text(entry, "tcp"),
            interval: text(entry, "interval").unwrap_or_else(default_interval),
            timeout: text(entry, "timeout").unwrap_or_else(default_timeout),
        });
    }
    for entry in table
        .get("log")
        .and_then(toml::Value::as_array)
        .into_iter()
        .flatten()
    {
        let entry = entry.as_table().unwrap();
        config.log.push(LogConfig {
            name: text(entry, "name").unwrap(),
            path: text(entry, "path").unwrap(),
        });
    }
    config
}

#[test]
fn starter_config_is_valid() {
    let table: toml::Table = toml::from_str(starter_config()).expect("starter config parses");
    let parsed = from_table(&table);
    assert_eq!(parsed.service.len(), 2);
    assert!(parsed.log.is_empty());
    assert_eq!(parsed.refresh_interval_ms, 1_000);
    assert!(validate(&parsed).is_ok());
}

#[test]
fn validation_rejects_ambiguous_service_targets() {
    let mut config = AppConfig::default();
    config.service.push(service(
        "api",
        Some("http://localhost/health"),
        Some("localhost:80"),
    ));
    assert!(validate(&config).is_err());
}

#[test]
fn validation_rejects_duplicate_names_case_insensitively() {
    let config = AppConfig {
        log: vec![
            LogConfig {
                name: "API".to_owned(),
                path: "one.log".to_owned(),
            },
            LogConfig {
                name: "api".to_owned(),
                path: "two.log".to_owned(),
            },
        ],
        ..AppConfig::default()
    };
    assert!(validate(&config).is_err());
}

#[test]
fn validation_rejects_zero_sized_buffers_and_fast_refreshes() {
    let mut config = AppConfig {
        log_buffer_lines: 0,
        ..AppConfig::default()
    };
    assert!(validate(&config).is_err());

    config.log_buffer_lines = 100;
    config.socket_refresh_interval_ms = 99;
    assert!(validate(&config).is_err());
}

#[test]
fn default_settings_pass_validation() {
    assert_eq!(validate(&AppConfig::default()), Ok(()));
    assert_eq!(default_interval(), "30s");
    assert_eq!(default_timeout(), "3s");
}

#[test]
fn validation_names_the_first_problem() {
    let config = AppConfig {
        refresh_interval_ms: 50,
        history_points: 0,
        ..AppConfig::default()
    };
    assert_eq!(
        validate(&config),
        Err("refresh_interval_ms must be at least 100".to_owned())
    );
    let config = AppConfig {
        history_points: 0,
        ..AppConfig::default()
    };
    assert_eq!(
        validate(&config),
        Err("history_points must be greater than zero".to_owned())
    );
    let mut config = AppConfig::default();
    config.thresholds.memory_percent = 10_001;
    assert_eq!(
        validate(&config),
        Err("thresholds.memory_percent must be between 0 and 100".to_owned())
    );
}

#[test]
fn services_need_a_name_one_target_and_durations() {
    let mut config = AppConfig::default();
    config.service.push(service("  ", Some("http://localhost/health"), None));
    assert_eq!(
        validate(&config),
        Err("service names cannot be empty".to_owned())
    );
    let mut config = AppConfig::default();
    config.service.push(service("api", None, None));
    assert_eq!(
        validate(&config),
        Err("service api requires exactly one of health or tcp".to_owned())
    );
    let mut config = AppConfig::default();
    config.service.push(service("api", Some("http://localhost/health"), None));
    config.service.push(service("Api", None, Some("localhost:80")));
    assert_eq!(
        validate(&config),
        Err("duplicate service name: Api".to_owned())
    );
    let mut config = AppConfig::default();
    let mut zero = service("db", None, Some("localhost:5432"));
    zero.interval = "0s".to_owned();
    config.service.push(zero);
    assert_eq!(
        validate(&config),
        Err("service db interval must be greater than zero".to_owned())
    );
    let mut config = AppConfig::default();
    let mut broken = service("db", None, Some("localhost:5432"));
    broken.timeout = "soon".to_owned();
    config.service.push(broken);
    let error = validate(&config).unwrap_err();
    assert!(error.starts_with("service db timeout is invalid: "));
}

#[test]
fn log_sources_need_a_path() {
    let config = AppConfig {
        log: vec![LogConfig {
            name: "api".to_owned(),
            path: String::new(),
        }],
        ..AppConfig::default()
    };
    assert_eq!(
        validate(&config),
        Err("log source api requires a path".to_owned())
    );
}

#[test]
fn durations_must_parse() {
    let mut config = AppConfig::default();
    let mut compound = service("db", None, Some("localhost:5432"));
    compound.interval = "1m 30s".to_owned();
    compound.timeout = "250ms".to_owned();
    config.service.push(compound);
    assert_eq!(validate(&config), Ok(()));
    config.service[0].interval = "ten seconds".to_owned();
    assert!(validate(&config)
        .unwrap_err()
        .starts_with("service db interval is invalid: "));
}

#[test]
fn loading_reports_invalid_settings_against_the_file() {
    let good = accept("/p/wsentry.toml".to_owned(), AppConfig::default());
    assert!(good.is_ok());
    let bad = AppConfig {
        log_buffer_lines: 0,
        ..AppConfig::default()
    };
    match accept("/p/wsentry.toml".to_owned(), bad) {
        Err(error) => assert_eq!(
            error.message(),
            "invalid configuration in /p/wsentry.toml: log_buffer_lines must be greater than zero"
        ),
        Ok(_) => panic!("an invalid configuration was accepted"),
    }
}

#[test]
fn init_refuses_to_overwrite() {
    assert_eq!(CONFIG_FILE_NAME, "wsentry.toml");
    assert_eq!(
        init_target("/p/wsentry.toml".to_owned(), false).ok().as_deref(),
        Some("/p/wsentry.toml")
    );
    match init_target("/p/wsentry.toml".to_owned(), true) {
        Err(error) => {
            assert!(matches!(error, ConfigError::AlreadyExists(_)));
            assert_eq!(
                error.message(),
                "refusing to overwrite existing configuration: /p/wsentry.toml"
            );
        }
        Ok(_) => panic!("an existing file would be overwritten"),
    }
}

#[test]
fn config_errors_read_as_messages() {
    let read = ConfigError::Read {
        path: "a.toml".to_owned(),
        message: "not found".to_owned(),
    };
    assert_eq!(read.message(), "failed to read a.toml: not found");
    let parse = ConfigError::Parse {
        path: "a.toml".to_owned(),
        message: "expected `=`".to_owned(),
    };
    assert_eq!(parse.message(), "failed to parse a.toml: expected `=`");
    let write = ConfigError::Write {
        path: "a.toml".to_owned(),
        message: "read-only".to_owned(),
    };
    assert_eq!(write.message(), "failed to write a.toml: read-only");
}

#[test]
fn durations_with_too_many_digits_are_refused() {
    let mut config = AppConfig::default();
    let mut huge = service("db", None, Some("localhost:5432"));
    huge.interval = "18446744073709551615s 1000000000ns".to_owned();
    config.service.push(huge);
    assert_eq!(
        validate(&config),
        Err("service db interval is invalid: more than 11 digits".to_owned())
    );
    config.service[0].interval = "10s".to_owned();
    config.service[0].timeout = "100000000000ms".to_owned();
    assert_eq!(
        validate(&config),
        Err("service db timeout is invalid: more than 11 digits".to_owned())
    );
    config.service[0].timeout = "10000000000ms".to_owned();
    assert_eq!(validate(&config), Ok(()));
}

#[test]
fn digits_are_counted_in_the_whole_text() {
    assert_eq!(count_digits("1h 30m"), 3);
    assert_eq!(count_digits("soon"), 0);
    assert_eq!(count_digits("18446744073709551615s 1000000000ns"), 30);
    assert_eq!(read_duration("2h 37min"), Ok((9_420, 0)));
    assert_eq!(read_duration("4.2s"), Ok((4, 200_000_000)));
    assert_eq!(
        read_duration("99999999999y 1s"),
        Err("more than 11 digits".to_owned())
    );
    assert!(read_duration("ten seconds").is_err());
}
