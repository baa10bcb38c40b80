//! The project configuration (`wsentry.toml`): its schema, defaults and validation.
//!
//! Thresholds are held as hundredths of a percent (`8_500` is 85 %).

use vstd::prelude::*;

use crate::text::{chars_of, is_blank, is_whitespace, join2, join3, lowercase, to_lowercase};

verus! {

/// The file name looked for in a project directory.
pub const CONFIG_FILE_NAME: &'static str = "wsentry.toml";

/// The whole configuration.
#[derive(Clone, Debug)]
pub struct AppConfig {
    pub refresh_interval_ms: u64,
    pub socket_refresh_interval_ms: u64,
    pub log_refresh_interval_ms: u64,
    pub history_points: usize,
    pub log_buffer_lines: usize,
    pub thresholds: Thresholds,
    pub service: Vec<ServiceConfig>,
    pub log: Vec<LogConfig>,
}

/// Warning thresholds, in hundredths of a percent.
#[derive(Clone, Copy, Debug, PartialEq, Eq, Structural)]
pub struct Thresholds {
    pub cpu_percent: i64,
    pub memory_percent: i64,
    pub disk_percent: i64,
}

/// One service to health-check.
#[derive(Clone, Debug)]
pub struct ServiceConfig {
    pub name: String,
    pub health: Option<String>,
    pub tcp: Option<String>,
    pub interval: String,
    pub timeout: String,
}

/// One log file to follow.
#[derive(Clone, Debug)]
pub struct LogConfig {
    pub name: String,
    pub path: String,
}

impl Thresholds {
    /// The default thresholds: CPU 85 %, memory 90 %, disk 90 %.
    pub open spec fn is_default(self) -> bool {
        self == (Thresholds { cpu_percent: 8500, memory_percent: 9000, disk_percent: 9000 })
    }
}

impl Default for Thresholds {
    fn default() -> (r: Self)
        ensures
            r.is_default(),
    {
        Thresholds { cpu_percent: 8500, memory_percent: 9000, disk_percent: 9000 }
    }
}

impl AppConfig {
    /// The default settings, with no services and no log sources.
    pub open spec fn is_default(self) -> bool {
        &&& self.refresh_interval_ms == 1000
        &&& self.socket_refresh_interval_ms == 2000
        &&& self.log_refresh_interval_ms == 500
        &&& self.history_points == 120
        &&& self.log_buffer_lines == 2000
        &&& self.thresholds.is_default()
        &&& self.service@.len() == 0
        &&& self.log@.len() == 0
    }
}

impl Default for AppConfig {
    fn default() -> (r: Self)
        ensures
            r.is_default(),
    {
        AppConfig {
            refresh_interval_ms: 1_000,
            socket_refresh_interval_ms: 2_000,
            log_refresh_interval_ms: 500,
            history_points: 120,
            log_buffer_lines: 2_000,
            thresholds: Thresholds::default(),
            service: Vec::new(),
            log: Vec::new(),
        }
    }
}

/// The interval used for a service that names none.
pub fn default_interval() -> (r: String)
    ensures
        r@ == "30s"@,
{
    String::from_str("30s")
}

/// The timeout used for a service that names none.
pub fn default_timeout() -> (r: String)
    ensures
        r@ == "3s"@,
{
    String::from_str("3s")
}

/// The annotated configuration that `wsentry init` writes.
pub fn starter_config() -> (r: &'static str)
    ensures
        r@ == STARTER_CONFIG@,
{
    STARTER_CONFIG
}

/// The text of the starter configuration.
pub const STARTER_CONFIG: &'static str = "# Windorion Sentry project configuration\n\
refresh_interval_ms = 1000\n\
socket_refresh_interval_ms = 2000\n\
log_refresh_interval_ms = 500\n\
history_points = 120\n\
log_buffer_lines = 2000\n\
\n\
[thresholds]\n\
cpu_percent = 85.0\n\
memory_percent = 90.0\n\
disk_percent = 90.0\n\
\n\
[[service]]\n\
name = \"api\"\n\
health = \"http://localhost:8080/health\"\n\
interval = \"10s\"\n\
timeout = \"3s\"\n\
\n\
[[service]]\n\
name = \"postgres\"\n\
tcp = \"localhost:5432\"\n\
interval = \"30s\"\n\
timeout = \"3s\"\n\
\n\
# Uncomment to follow a project log file. Relative paths are resolved from\n\
# the directory containing wsentry.toml.\n\
# [[log]]\n\
# name = \"api\"\n\
# path = \"./logs/api.log\"\n\
";

/// What `humantime::parse_duration` gives for a text: whole seconds and the nanoseconds
/// past them, or the text of its error.
pub uninterp spec fn humantime_duration(text: Seq<char>) -> Result<(u64, u32), Seq<char>>;

/// Whether `c` is one of the ASCII digits `0` to `9`.
pub open spec fn is_digit(c: char) -> bool {
    48 <= (c as u32) <= 57
}

/// The number of ASCII digits in `s`.
pub open spec fn digit_count(s: Seq<char>) -> nat
    decreases s.len(),
{
    if s.len() == 0 {
        0
    } else {
        digit_count(s.drop_last()) + if is_digit(s.last()) {
            1nat
        } else {
            0nat
        }
    }
}

/// The most ASCII digits a duration text may hold. With at most this many digits the
/// seconds of the duration stay below 10^11 years (about 3.2 * 10^18 seconds), well below
/// `u64::MAX`. humantime panics only when its running total of seconds reaches `u64::MAX`
/// exactly as a carry of a whole second arrives, so texts within the bound never make it
/// panic. Texts beyond it are refused without being parsed, even those (such as a number
/// with many leading zeros) that humantime would read safely.
pub const MAX_DURATION_DIGITS: usize = 11;

/// Calls `humantime::parse_duration` on a text of at most `MAX_DURATION_DIGITS` digits. The
/// result is named `humantime_duration`: the duration split into seconds and nanoseconds
/// (fewer than a billion, as `Duration::subsec_nanos` guarantees), or the error's `Display`
/// text. The crate's grammar (numbers with unit suffixes such as `30s` or `2h 37min`) is
/// not restated here.
#[verifier::external_body]
fn parse_duration(text: &str) -> (r: Result<(u64, u32), String>)
    requires
        digit_count(text@) <= MAX_DURATION_DIGITS,
    ensures
        match r {
            Ok(d) => humantime_duration(text@) == Ok::<(u64, u32), Seq<char>>(d) && d.1
                < 1_000_000_000,
            Err(e) => humantime_duration(text@) == Err::<(u64, u32), Seq<char>>(e@),
        },
{
    match humantime::parse_duration(text) {
        Ok(duration) => Ok((duration.as_secs(), duration.subsec_nanos())),
        Err(error) => Err(error.to_string()),
    }
}

/// What a duration text reads as: humantime's reading for a text of at most
/// `MAX_DURATION_DIGITS` digits, else an error saying there are too many digits.
pub open spec fn parsed_duration(text: Seq<char>) -> Result<(u64, u32), Seq<char>> {
    if digit_count(text) > MAX_DURATION_DIGITS {
        Err("more than 11 digits"@)
    } else {
        humantime_duration(text)
    }
}

/// Counts the ASCII digits of a text.
pub fn count_digits(text: &str) -> (r: usize)
    ensures
        r == digit_count(text@),
{
    let cs = chars_of(text);
    let mut n: usize = 0;
    let mut i: usize = 0;
    while i < cs.len()
        invariant
            i <= cs@.len(),
            cs@ == text@,
            n == digit_count(cs@.take(i as int)),
            n <= i,
        decreases cs.len() - i,
    {
        assert(cs@.take(i + 1).drop_last() =~= cs@.take(i as int));
        let u = cs[i] as u32;
        if 48 <= u && u <= 57 {
            n = n + 1;
        }
        i = i + 1;
    }
    assert(cs@.take(i as int) =~= cs@);
    n
}

/// Reads a duration text: as humantime does, for a text of at most `MAX_DURATION_DIGITS`
/// digits; a longer one is refused with an error. The duration is split into seconds and
/// nanoseconds.
pub fn read_duration(text: &str) -> (r: Result<(u64, u32), String>)
    ensures
        match r {
            Ok(d) => parsed_duration(text@) == Ok::<(u64, u32), Seq<char>>(d) && d.1
                < 1_000_000_000,
            Err(e) => parsed_duration(text@) == Err::<(u64, u32), Seq<char>>(e@),
        },
{
    if count_digits(text) > MAX_DURATION_DIGITS {
        proof {
            reveal_strlit("more than 11 digits");
        }
        Err(String::from_str("more than 11 digits"))
    } else {
        parse_duration(text)
    }
}

/// Why a duration setting named `field` is invalid, if it is: it does not parse, or it is zero.
pub open spec fn duration_error(text: Seq<char>, field: Seq<char>) -> Option<Seq<char>> {
    match parsed_duration(text) {
        Err(e) => Some(field + " is invalid: "@ + e),
        Ok(d) => if d.0 == 0 && d.1 == 0 {
            Some(field + " must be greater than zero"@)
        } else {
            None
        },
    }
}

/// The first problem with the refresh intervals, if any.
pub open spec fn interval_error(c: AppConfig) -> Option<Seq<char>> {
    if c.refresh_interval_ms < 100 {
        Some("refresh_interval_ms must be at least 100"@)
    } else if c.socket_refresh_interval_ms < 100 {
        Some("socket_refresh_interval_ms must be at least 100"@)
    } else if c.log_refresh_interval_ms < 100 {
        Some("log_refresh_interval_ms must be at least 100"@)
    } else {
        None
    }
}

/// A threshold lies between 0 and 100 percent.
pub open spec fn threshold_valid(v: i64) -> bool {
    0 <= v <= 10000
}

/// The first problem with the buffers and thresholds, if any.
pub open spec fn limits_error(c: AppConfig) -> Option<Seq<char>> {
    if c.history_points == 0 {
        Some("history_points must be greater than zero"@)
    } else if c.log_buffer_lines == 0 {
        Some("log_buffer_lines must be greater than zero"@)
    } else if !threshold_valid(c.thresholds.cpu_percent) {
        Some("thresholds.cpu_percent must be between 0 and 100"@)
    } else if !threshold_valid(c.thresholds.memory_percent) {
        Some("thresholds.memory_percent must be between 0 and 100"@)
    } else if !threshold_valid(c.thresholds.disk_percent) {
        Some("thresholds.disk_percent must be between 0 and 100"@)
    } else {
        None
    }
}

/// Some service before position `k` has the same name as service `k`, ignoring case.
pub open spec fn service_name_taken(services: Seq<ServiceConfig>, k: int) -> bool {
    exists|j: int| 0 <= j < k && lowercase(#[trigger] services[j].name@) == lowercase(services[k].name@)
}

/// The problem with service `k`, given that the services before it are valid.
pub open spec fn service_error(services: Seq<ServiceConfig>, k: int) -> Option<Seq<char>> {
    let s = services[k];
    if is_blank(s.name@) {
        Some("service names cannot be empty"@)
    } else if service_name_taken(services, k) {
        Some("duplicate service name: "@ + s.name@)
    } else if (s.health is Some) == (s.tcp is Some) {
        Some("service "@ + s.name@ + " requires exactly one of health or tcp"@)
    } else if duration_error(s.interval@, "service "@ + s.name@ + " interval"@) is Some {
        duration_error(s.interval@, "service "@ + s.name@ + " interval"@)
    } else {
        duration_error(s.timeout@, "service "@ + s.name@ + " timeout"@)
    }
}

/// The first problem among the services from position `k` on.
pub open spec fn services_error_from(services: Seq<ServiceConfig>, k: int) -> Option<Seq<char>>
    decreases services.len() - k,
{
    if k < 0 || k >= services.len() {
        None
    } else if service_error(services, k) is Some {
        service_error(services, k)
    } else {
        services_error_from(services, k + 1)
    }
}

/// Some log source before position `k` has the same name as source `k`, ignoring case.
pub open spec fn log_name_taken(logs: Seq<LogConfig>, k: int) -> bool {
    exists|j: int| 0 <= j < k && lowercase(#[trigger] logs[j].name@) == lowercase(logs[k].name@)
}

/// The problem with log source `k`, given that the sources before it are valid.
pub open spec fn log_error(logs: Seq<LogConfig>, k: int) -> Option<Seq<char>> {
    let l = logs[k];
    if is_blank(l.name@) {
        Some("log source names cannot be empty"@)
    } else if l.path@.len() == 0 {
        Some("log source "@ + l.name@ + " requires a path"@)
    } else if log_name_taken(logs, k) {
        Some("duplicate log source name: "@ + l.name@)
    } else {
        None
    }
}

/// The first problem among the log sources from position `k` on.
pub open spec fn logs_error_from(logs: Seq<LogConfig>, k: int) -> Option<Seq<char>>
    decreases logs.len() - k,
{
    if k < 0 || k >= logs.len() {
        None
    } else if log_error(logs, k) is Some {
        log_error(logs, k)
    } else {
        logs_error_from(logs, k + 1)
    }
}

/// The first problem with a configuration, in the order the checks run, or none.
pub open spec fn config_error(c: AppConfig) -> Option<Seq<char>> {
    if interval_error(c) is Some {
        interval_error(c)
    } else if limits_error(c) is Some {
        limits_error(c)
    } else if services_error_from(c.service@, 0) is Some {
        services_error_from(c.service@, 0)
    } else {
        logs_error_from(c.log@, 0)
    }
}

/// Whether `s` holds nothing but white space (so that trimming leaves it empty).
fn blank(s: &str) -> (r: bool)
    ensures
        r == is_blank(s@),
{
    let mut all = true;
    for c in it: s.chars()
        invariant
            it.seq() == s@,
            all == (forall|k: int| 0 <= k < it.index() ==> crate::text::is_space(#[trigger] s@[k])),
    {
        if !is_whitespace(c) {
            all = false;
        }
    }
    all
}

/// Whether `name` is among `seen`.
fn seen_before(seen: &Vec<String>, name: &String) -> (r: bool)
    ensures
        r == exists|j: int| 0 <= j < seen@.len() && (#[trigger] seen@[j])@ == name@,
{
    let mut i: usize = 0;
    while i < seen.len()
        invariant
            i <= seen@.len(),
            forall|j: int| 0 <= j < i ==> (#[trigger] seen@[j])@ != name@,
        decreases seen.len() - i,
    {
        if seen[i] == *name {
            return true;
        }
        i = i + 1;
    }
    false
}

/// Checks that a duration setting parses and is not zero.
fn validate_duration(value: &str, field: &str) -> (r: Result<(), String>)
    ensures
        match r {
            Ok(()) => duration_error(value@, field@) is None,
            Err(e) => duration_error(value@, field@) == Some(e@),
        },
{
    match read_duration(value) {
        Err(error) => {
            let head = join2(field, " is invalid: ");
            Err(join2(head.as_str(), error.as_str()))
        },
        Ok(duration) => {
            if duration.0 == 0 && duration.1 == 0 {
                Err(join2(field, " must be greater than zero"))
            } else {
                Ok(())
            }
        },
    }
}

/// Checks the services from the first on; the first problem found is returned.
fn validate_services(services: &Vec<ServiceConfig>) -> (r: Result<(), String>)
    ensures
        match r {
            Ok(()) => services_error_from(services@, 0) is None,
            Err(e) => services_error_from(services@, 0) == Some(e@),
        },
{
    let mut seen: Vec<String> = Vec::new();
    let mut i: usize = 0;
    while i < services.len()
        invariant
            i <= services@.len(),
            services_error_from(services@, 0) == services_error_from(services@, i as int),
            seen@.len() == i,
            forall|j: int| 0 <= j < i ==> (#[trigger] seen@[j])@ == lowercase(services@[j].name@),
        decreases services.len() - i,
    {
        let service = &services[i];
        let ghost k = i as int;
        assert(services_error_from(services@, k) == (if service_error(services@, k) is Some {
            service_error(services@, k)
        } else {
            services_error_from(services@, k + 1)
        }));
        if blank(service.name.as_str()) {
            return Err(String::from_str("service names cannot be empty"));
        }
        let lower = to_lowercase(service.name.as_str());
        let taken = seen_before(&seen, &lower);
        assert(taken == service_name_taken(services@, k)) by {
            if taken {
                let j = choose|j: int| 0 <= j < seen@.len() && (#[trigger] seen@[j])@ == lower@;
                assert(lowercase(services@[j].name@) == lowercase(services@[k].name@));
            }
            if service_name_taken(services@, k) {
                let j = choose|j: int|
                    0 <= j < k && lowercase(#[trigger] services@[j].name@) == lowercase(
                        services@[k].name@,
                    );
                assert(seen@[j]@ == lower@);
            }
        }
        if taken {
            return Err(join2("duplicate service name: ", service.name.as_str()));
        }
        if service.health.is_some() == service.tcp.is_some() {
            return Err(
                join3("service ", service.name.as_str(), " requires exactly one of health or tcp"),
            );
        }
        let interval_field = join3("service ", service.name.as_str(), " interval");
        match validate_duration(service.interval.as_str(), interval_field.as_str()) {
            Err(e) => {
                return Err(e);
            },
            Ok(()) => {},
        }
        let timeout_field = join3("service ", service.name.as_str(), " timeout");
        match validate_duration(service.timeout.as_str(), timeout_field.as_str()) {
            Err(e) => {
                return Err(e);
            },
            Ok(()) => {},
        }
        seen.push(lower);
        i = i + 1;
    }
    Ok(())
}

/// Checks the log sources from the first on; the first problem found is returned.
fn validate_logs(logs: &Vec<LogConfig>) -> (r: Result<(), String>)
    ensures
        match r {
            Ok(()) => logs_error_from(logs@, 0) is None,
            Err(e) => logs_error_from(logs@, 0) == Some(e@),
        },
{
    let mut seen: Vec<String> = Vec::new();
    let mut i: usize = 0;
    while i < logs.len()
        invariant
            i <= logs@.len(),
            logs_error_from(logs@, 0) == logs_error_from(logs@, i as int),
            seen@.len() == i,
            forall|j: int| 0 <= j < i ==> (#[trigger] seen@[j])@ == lowercase(logs@[j].name@),
        decreases logs.len() - i,
    {
        let log = &logs[i];
        let ghost k = i as int;
        assert(logs_error_from(logs@, k) == (if log_error(logs@, k) is Some {
            log_error(logs@, k)
        } else {
            logs_error_from(logs@, k + 1)
        }));
        if blank(log.name.as_str()) {
            return Err(String::from_str("log source names cannot be empty"));
        }
        if log.path.as_str().is_empty() {
            return Err(join3("log source ", log.name.as_str(), " requires a path"));
        }
        let lower = to_lowercase(log.name.as_str());
        let taken = seen_before(&seen, &lower);
        assert(taken == log_name_taken(logs@, k)) by {
            if taken {
                let j = choose|j: int| 0 <= j < seen@.len() && (#[trigger] seen@[j])@ == lower@;
                assert(lowercase(logs@[j].name@) == lowercase(logs@[k].name@));
            }
            if log_name_taken(logs@, k) {
                let j = choose|j: int|
                    0 <= j < k && lowercase(#[trigger] logs@[j].name@) == lowercase(logs@[k].name@);
                assert(seen@[j]@ == lower@);
            }
        }
        if taken {
            return Err(join2("duplicate log source name: ", log.name.as_str()));
        }
        seen.push(lower);
        i = i + 1;
    }
    Ok(())
}

/// Checks a configuration: refresh intervals of at least 100 ms, non-empty buffers,
/// thresholds between 0 and 100 %, services with unique non-blank names (ignoring case),
/// exactly one target each and valid non-zero durations, and log sources with unique
/// non-blank names and a path. The first problem found is returned as a message.
pub fn validate(config: &AppConfig) -> (r: Result<(), String>)
    ensures
        match r {
            Ok(()) => config_error(*config) is None,
            Err(e) => config_error(*config) == Some(e@),
        },
{
    if config.refresh_interval_ms < 100 {
        return Err(String::from_str("refresh_interval_ms must be at least 100"));
    }
    if config.socket_refresh_interval_ms < 100 {
        return Err(String::from_str("socket_refresh_interval_ms must be at least 100"));
    }
    if config.log_refresh_interval_ms < 100 {
        return Err(String::from_str("log_refresh_interval_ms must be at least 100"));
    }
    if config.history_points == 0 {
        return Err(String::from_str("history_points must be greater than zero"));
    }
    if config.log_buffer_lines == 0 {
        return Err(String::from_str("log_buffer_lines must be greater than zero"));
    }
    let t = config.thresholds;
    if !(0 <= t.cpu_percent && t.cpu_percent <= 10000) {
        return Err(String::from_str("thresholds.cpu_percent must be between 0 and 100"));
    }
    if !(0 <= t.memory_percent && t.memory_percent <= 10000) {
        return Err(String::from_str("thresholds.memory_percent must be between 0 and 100"));
    }
    if !(0 <= t.disk_percent && t.disk_percent <= 10000) {
        return Err(String::from_str("thresholds.disk_percent must be between 0 and 100"));
    }
    match validate_services(&config.service) {
        Err(e) => {
            return Err(e);
        },
        Ok(()) => {},
    }
    validate_logs(&config.log)
}

/// Why a configuration could not be loaded or created.
#[derive(Clone, Debug)]
pub enum ConfigError {
    /// The file could not be read.
    Read { path: String, message: String },
    /// The file is not valid TOML for the schema.
    Parse { path: String, message: String },
    /// The file parsed, but a value is not allowed.
    Invalid { path: String, message: String },
    /// A configuration file is already in the way.
    AlreadyExists(String),
    /// The file or its directory could not be written.
    Write { path: String, message: String },
}

impl ConfigError {
    /// The message shown for the error.
    pub open spec fn message_text(self) -> Seq<char> {
        match self {
            ConfigError::Read { path, message } => "failed to read "@ + path@ + ": "@ + message@,
            ConfigError::Parse { path, message } => "failed to parse "@ + path@ + ": "@
                + message@,
            ConfigError::Invalid { path, message } => "invalid configuration in "@ + path@
                + ": "@ + message@,
            ConfigError::AlreadyExists(path) => "refusing to overwrite existing configuration: "@
                + path@,
            ConfigError::Write { path, message } => "failed to write "@ + path@ + ": "@
                + message@,
        }
    }

    /// The message shown for the error.
    pub fn message(&self) -> (r: String)
        ensures
            r@ == self.message_text(),
    {
        proof {
            reveal_strlit("failed to read ");
            reveal_strlit("failed to parse ");
            reveal_strlit("invalid configuration in ");
            reveal_strlit("refusing to overwrite existing configuration: ");
            reveal_strlit("failed to write ");
            reveal_strlit(": ");
        }
        let (head, path, tail) = match self {
            ConfigError::Read { path, message } => ("failed to read ", path, Some(message)),
            ConfigError::Parse { path, message } => ("failed to parse ", path, Some(message)),
            ConfigError::Invalid { path, message } => (
                "invalid configuration in ",
                path,
                Some(message),
            ),
            ConfigError::AlreadyExists(path) => (
                "refusing to overwrite existing configuration: ",
                path,
                None,
            ),
            ConfigError::Write { path, message } => ("failed to write ", path, Some(message)),
        };
        let mut r = crate::text::join2(head, path.as_str());
        match tail {
            Some(message) => {
                r.append(": ");
                r.append(message.as_str());
            },
            None => {},
        }
        r
    }
}

/// What loading a parsed configuration gives: the configuration when it is valid, else the
/// first problem, reported against the file.
pub open spec fn loaded(path: String, config: AppConfig, r: Result<AppConfig, ConfigError>) -> bool {
    match config_error(config) {
        None => r == Ok::<AppConfig, ConfigError>(config),
        Some(problem) => match r {
            Err(ConfigError::Invalid { path: p, message }) => p == path && message@ == problem,
            _ => false,
        },
    }
}

/// Accepts a configuration parsed from the file at `path` if it is valid.
pub fn accept(path: String, config: AppConfig) -> (r: Result<AppConfig, ConfigError>)
    ensures
        loaded(path, config, r),
{
    match validate(&config) {
        Ok(()) => Ok(config),
        Err(message) => Err(ConfigError::Invalid { path, message }),
    }
}

/// Where `init` writes, unless a file is already there.
pub fn init_target(path: String, exists: bool) -> (r: Result<String, ConfigError>)
    ensures
        exists ==> (r matches Err(ConfigError::AlreadyExists(p)) && p == path),
        !exists ==> r == Ok::<String, ConfigError>(path),
{
    if exists {
        Err(ConfigError::AlreadyExists(path))
    } else {
        Ok(path)
    }
}

/// No service from position `k` on has a problem when the scan from `k` finds none.
proof fn lemma_services_clean(s: Seq<ServiceConfig>, k: int, i: int)
    requires
        0 <= k <= i < s.len(),
        services_error_from(s, k) is None,
    ensures
        service_error(s, i) is None,
    decreases i - k,
{
    if k < i {
        lemma_services_clean(s, k + 1, i);
    }
}

/// No log source from position `k` on has a problem when the scan from `k` finds none.
proof fn lemma_logs_clean(l: Seq<LogConfig>, k: int, i: int)
    requires
        0 <= k <= i < l.len(),
        logs_error_from(l, k) is None,
    ensures
        log_error(l, i) is None,
    decreases i - k,
{
    if k < i {
        lemma_logs_clean(l, k + 1, i);
    }
}

/// Law: a configuration that passes validation refreshes no faster than every 100 ms, keeps
/// non-empty buffers, and names each service and each log source once (ignoring case), never
/// with a blank name; each service has exactly one target and each log source a path.
pub proof fn valid_settings_are_unambiguous(c: AppConfig)
    requires
        config_error(c) is None,
    ensures
        c.refresh_interval_ms >= 100,
        c.socket_refresh_interval_ms >= 100,
        c.log_refresh_interval_ms >= 100,
        c.history_points > 0,
        c.log_buffer_lines > 0,
        forall|i: int|
            0 <= i < c.service@.len() ==> !is_blank((#[trigger] c.service@[i]).name@) && (
            c.service@[i].health is Some) != (c.service@[i].tcp is Some),
        forall|i: int, j: int|
            0 <= i < j < c.service@.len() ==> lowercase((#[trigger] c.service@[i]).name@)
                != lowercase((#[trigger] c.service@[j]).name@),
        forall|i: int|
            0 <= i < c.log@.len() ==> !is_blank((#[trigger] c.log@[i]).name@) && c.log@[i].path@.len()
                > 0,
        forall|i: int, j: int|
            0 <= i < j < c.log@.len() ==> lowercase((#[trigger] c.log@[i]).name@) != lowercase(
                (#[trigger] c.log@[j]).name@,
            ),
{
    assert forall|i: int|
        0 <= i < c.service@.len() implies !is_blank((#[trigger] c.service@[i]).name@) && (
        c.service@[i].health is Some) != (c.service@[i].tcp is Some) by {
        lemma_services_clean(c.service@, 0, i);
    }
    assert forall|i: int, j: int|
        0 <= i < j < c.service@.len() implies lowercase((#[trigger] c.service@[i]).name@)
            != lowercase((#[trigger] c.service@[j]).name@) by {
        lemma_services_clean(c.service@, 0, j);
        assert(!service_name_taken(c.service@, j));
    }
    assert forall|i: int|
        0 <= i < c.log@.len() implies !is_blank((#[trigger] c.log@[i]).name@) && c.log@[i].path@.len()
            > 0 by {
        lemma_logs_clean(c.log@, 0, i);
    }
    assert forall|i: int, j: int|
        0 <= i < j < c.log@.len() implies lowercase((#[trigger] c.log@[i]).name@) != lowercase(
            (#[trigger] c.log@[j]).name@,
        ) by {
        lemma_logs_clean(c.log@, 0, j);
        assert(!log_name_taken(c.log@, j));
    }
}

/// Law: the default configuration, which has no services and no log sources, passes
/// validation.
pub proof fn default_settings_are_valid(c: AppConfig)
    requires
        c.is_default(),
    ensures
        config_error(c) is None,
{
}

} // verus!
