//! The background collection schedule: what the collection worker does on each command and
//! timer, and the simulated log lines of the demo mode. The worker's timers, channels and
//! tasks run outside; they ask this schedule what to do.

use vstd::prelude::*;

use crate::config::{parsed_duration, read_duration, AppConfig, ServiceConfig};
use crate::logs::LogBatch;
use crate::model::{LogEntry, LogLevel, LogSourceStatus, ServiceStatus, SocketSnapshot, SystemSnapshot};

verus! {

/// What the collection worker sends to the interface.
#[derive(Debug)]
pub enum RuntimeUpdate {
    Snapshot(Box<SystemSnapshot>),
    Services(Vec<ServiceStatus>),
    Sockets(Result<Vec<SocketSnapshot>, String>),
    Logs(LogBatch),
    Error(String),
}

/// What the interface asks of the collection worker.
#[derive(Clone, Copy, Debug, PartialEq, Eq, Structural)]
pub enum RuntimeCommand {
    Refresh,
    SetPaused(bool),
    Shutdown,
}

/// What the worker does after a command.
#[derive(Clone, Copy, Debug, PartialEq, Eq, Structural)]
pub enum WorkerStep {
    /// Restart every timer so that all data is collected at once.
    ResetTimers,
    /// Carry on.
    Continue,
    /// Stop the worker.
    Stop,
}

/// The worker's state between events.
#[derive(Clone, Copy, Debug, PartialEq, Eq, Structural)]
pub struct WorkerSchedule {
    pub paused: bool,
    pub demo: bool,
    pub has_services: bool,
    pub has_logs: bool,
    pub demo_sequence: u64,
}

impl WorkerSchedule {
    /// The schedule for a configuration, live and not yet having produced demo lines.
    pub fn new(config: &AppConfig, demo: bool) -> (r: WorkerSchedule)
        ensures
            r == (WorkerSchedule {
                paused: false,
                demo,
                has_services: config.service@.len() > 0,
                has_logs: config.log@.len() > 0,
                demo_sequence: 0,
            }),
    {
        WorkerSchedule {
            paused: false,
            demo,
            has_services: config.service.len() > 0,
            has_logs: config.log.len() > 0,
            demo_sequence: 0,
        }
    }

    /// Handles a command; `None` means the interface has gone, which stops the worker.
    pub fn on_command(&mut self, command: Option<RuntimeCommand>) -> (r: WorkerStep)
        ensures
            match command {
                Some(RuntimeCommand::Refresh) => r == WorkerStep::ResetTimers && *final(self)
                    == *old(self),
                Some(RuntimeCommand::SetPaused(value)) => r == WorkerStep::Continue && *final(self)
                    == (WorkerSchedule { paused: value, ..*old(self) }),
                _ => r == WorkerStep::Stop && *final(self) == *old(self),
            },
    {
        match command {
            Some(RuntimeCommand::Refresh) => WorkerStep::ResetTimers,
            Some(RuntimeCommand::SetPaused(value)) => {
                self.paused = value;
                WorkerStep::Continue
            },
            Some(RuntimeCommand::Shutdown) | None => WorkerStep::Stop,
        }
    }

    /// The system timer collects a snapshot when live.
    pub open spec fn system_due(self) -> bool {
        !self.paused
    }

    /// The socket timer collects sockets when live, never in demo mode.
    pub open spec fn sockets_due(self) -> bool {
        !self.paused && !self.demo
    }

    /// The service timer runs checks when live and services are configured.
    pub open spec fn services_due(self) -> bool {
        !self.paused && self.has_services
    }

    /// The log timer reads logs when live, in demo mode or when log sources are configured.
    pub open spec fn logs_due(self) -> bool {
        !self.paused && (self.demo || self.has_logs)
    }

    /// Whether the system timer collects a snapshot.
    pub fn collects_system(&self) -> (r: bool)
        ensures
            r == self.system_due(),
    {
        !self.paused
    }

    /// Whether the socket timer collects sockets.
    pub fn collects_sockets(&self) -> (r: bool)
        ensures
            r == self.sockets_due(),
    {
        !self.paused && !self.demo
    }

    /// Whether the service timer runs checks.
    pub fn checks_services(&self) -> (r: bool)
        ensures
            r == self.services_due(),
    {
        !self.paused && self.has_services
    }

    /// Whether the log timer reads logs.
    pub fn follows_logs(&self) -> (r: bool)
        ensures
            r == self.logs_due(),
    {
        !self.paused && (self.demo || self.has_logs)
    }

    /// The next simulated log batch.
    pub fn next_demo_batch(&mut self) -> (r: LogBatch)
        requires
            old(self).demo_sequence < u64::MAX,
        ensures
            *final(self) == (WorkerSchedule {
                demo_sequence: (old(self).demo_sequence + 1) as u64,
                ..*old(self)
            }),
            demo_batch_is(r, final(self).demo_sequence),
    {
        self.demo_sequence = self.demo_sequence + 1;
        demo_log_batch(self.demo_sequence)
    }
}

/// Law: pausing (the state that `on_command(SetPaused(true))` leaves) stops every collector;
/// resuming restores the collectors that the configuration and mode call for.
pub proof fn pause_stops_all_collection(s: WorkerSchedule)
    ensures
        !(WorkerSchedule { paused: true, ..s }).system_due(),
        !(WorkerSchedule { paused: true, ..s }).sockets_due(),
        !(WorkerSchedule { paused: true, ..s }).services_due(),
        !(WorkerSchedule { paused: true, ..s }).logs_due(),
        (WorkerSchedule { paused: false, ..s }).system_due(),
        (WorkerSchedule { paused: false, ..s }).sockets_due() == !s.demo,
        (WorkerSchedule { paused: false, ..s }).services_due() == s.has_services,
        (WorkerSchedule { paused: false, ..s }).logs_due() == (s.demo || s.has_logs),
{
}

/// The system timer period: the refresh interval, at least 250 ms.
pub fn system_interval_ms(config: &AppConfig) -> (r: u64)
    ensures
        r == (if config.refresh_interval_ms >= 250 {
            config.refresh_interval_ms
        } else {
            250
        }),
{
    if config.refresh_interval_ms >= 250 {
        config.refresh_interval_ms
    } else {
        250
    }
}

/// The socket timer period: the socket refresh interval, at least 500 ms.
pub fn socket_interval_ms(config: &AppConfig) -> (r: u64)
    ensures
        r == (if config.socket_refresh_interval_ms >= 500 {
            config.socket_refresh_interval_ms
        } else {
            500
        }),
{
    if config.socket_refresh_interval_ms >= 500 {
        config.socket_refresh_interval_ms
    } else {
        500
    }
}

/// The log timer period: the log refresh interval, at least 100 ms.
pub fn log_interval_ms(config: &AppConfig) -> (r: u64)
    ensures
        r == (if config.log_refresh_interval_ms >= 100 {
            config.log_refresh_interval_ms
        } else {
            100
        }),
{
    if config.log_refresh_interval_ms >= 100 {
        config.log_refresh_interval_ms
    } else {
        100
    }
}

/// Durations as (seconds, nanoseconds) ordered by length.
pub open spec fn duration_le(a: (u64, u32), b: (u64, u32)) -> bool {
    a.0 < b.0 || (a.0 == b.0 && a.1 <= b.1)
}

/// The shortest interval among the first `n` services whose interval parses.
pub open spec fn shortest_interval(services: Seq<ServiceConfig>, n: int) -> Option<(u64, u32)>
    decreases n,
{
    if n <= 0 {
        None
    } else {
        let before = shortest_interval(services, n - 1);
        match parsed_duration(services[n - 1].interval@) {
            Err(_) => before,
            Ok(d) => match before {
                None => Some(d),
                Some(m) => Some(
                    if duration_le(m, d) {
                        m
                    } else {
                        d
                    },
                ),
            },
        }
    }
}

/// The service timer period: the shortest service interval (30 s if none parses), at least
/// 2 s.
pub open spec fn service_period(services: Seq<ServiceConfig>) -> (u64, u32) {
    let base = match shortest_interval(services, services.len() as int) {
        Some(d) => d,
        None => (30, 0),
    };
    if duration_le(base, (2, 0)) {
        (2, 0)
    } else {
        base
    }
}

/// The service timer period, as (seconds, nanoseconds).
pub fn service_interval(config: &AppConfig) -> (r: (u64, u32))
    ensures
        r == service_period(config.service@),
{
    let mut shortest: Option<(u64, u32)> = None;
    let mut i: usize = 0;
    while i < config.service.len()
        invariant
            i <= config.service@.len(),
            shortest == shortest_interval(config.service@, i as int),
        decreases config.service.len() - i,
    {
        match read_duration(config.service[i].interval.as_str()) {
            Ok(d) => {
                shortest = match shortest {
                    None => Some(d),
                    Some(m) => Some(
                        if m.0 < d.0 || (m.0 == d.0 && m.1 <= d.1) {
                            m
                        } else {
                            d
                        },
                    ),
                };
            },
            Err(_) => {},
        }
        i = i + 1;
    }
    let base = match shortest {
        Some(d) => d,
        None => (30, 0),
    };
    if base.0 < 2 || (base.0 == 2 && base.1 == 0) {
        (2, 0)
    } else {
        base
    }
}

/// The simulated line number `i` (counting from zero) of the demo log, which repeats every
/// five lines.
pub open spec fn demo_line(i: int) -> (LogLevel, Seq<char>) {
    if i == 0 {
        (LogLevel::Info, "HTTP server ready on 127.0.0.1:8080"@)
    } else if i == 1 {
        (LogLevel::Debug, "completed health check in 18ms"@)
    } else if i == 2 {
        (LogLevel::Warn, "worker queue depth reached 128 jobs"@)
    } else if i == 3 {
        (LogLevel::Info, "processed request GET /api/projects"@)
    } else {
        (LogLevel::Error, "worker connection refused; retrying"@)
    }
}

/// What the demo batch number `sequence` holds: one line, chosen in turn from five, from the
/// `worker` source for errors and the `api` source otherwise, and both sources available.
pub open spec fn demo_batch_is(b: LogBatch, sequence: u64) -> bool {
    let (level, line) = demo_line((sequence - 1) % 5);
    &&& b.entries@.len() == 1
    &&& b.entries@[0].sequence == sequence
    &&& b.entries@[0].level == level
    &&& b.entries@[0].line@ == line
    &&& b.entries@[0].source@ == (if level == LogLevel::Error {
        "worker"@
    } else {
        "api"@
    })
    &&& b.sources@.len() == 2
    &&& b.sources@[0].name@ == "api"@ && b.sources@[0].path@ == "demo://api"@
    &&& b.sources@[0].available && b.sources@[0].message is None
    &&& b.sources@[1].name@ == "worker"@ && b.sources@[1].path@ == "demo://worker"@
    &&& b.sources@[1].available && b.sources@[1].message is None
}

/// The demo log batch number `sequence` (counting from one).
pub fn demo_log_batch(sequence: u64) -> (r: LogBatch)
    requires
        sequence >= 1,
    ensures
        demo_batch_is(r, sequence),
{
    let index = (sequence - 1) % 5;
    let (level, line) = if index == 0 {
        (LogLevel::Info, "HTTP server ready on 127.0.0.1:8080")
    } else if index == 1 {
        (LogLevel::Debug, "completed health check in 18ms")
    } else if index == 2 {
        (LogLevel::Warn, "worker queue depth reached 128 jobs")
    } else if index == 3 {
        (LogLevel::Info, "processed request GET /api/projects")
    } else {
        (LogLevel::Error, "worker connection refused; retrying")
    };
    let source = if level == LogLevel::Error {
        String::from_str("worker")
    } else {
        String::from_str("api")
    };
    let entries = vec![LogEntry { sequence, source, level, line: String::from_str(line) }];
    let sources = vec![
        LogSourceStatus {
            name: String::from_str("api"),
            path: String::from_str("demo://api"),
            available: true,
            message: None,
        },
        LogSourceStatus {
            name: String::from_str("worker"),
            path: String::from_str("demo://worker"),
            available: true,
            message: None,
        },
    ];
    LogBatch { entries, sources }
}

/// Law: the demo log repeats every five batches, apart from the sequence number.
pub proof fn demo_log_repeats_every_five(sequence: u64)
    requires
        sequence >= 1,
    ensures
        demo_line((sequence - 1) % 5) == demo_line((sequence + 5 - 1) % 5),
{
}

/// Whether some service among the first `n` has an interval that parses to `d`.
pub open spec fn some_interval_is(services: Seq<ServiceConfig>, n: int, d: (u64, u32)) -> bool {
    exists|i: int| 0 <= i < n && #[trigger] parsed_duration(services[i].interval@) == Ok::<(u64, u32), Seq<char>>(d)
}

proof fn lemma_shortest_interval(services: Seq<ServiceConfig>, n: int)
    requires
        0 <= n <= services.len(),
    ensures
        shortest_interval(services, n) is None ==> forall|i: int|
            0 <= i < n ==> (#[trigger] parsed_duration(services[i].interval@)) is Err,
        shortest_interval(services, n) matches Some(m) ==> {
            &&& some_interval_is(services, n, m)
            &&& forall|i: int|
                0 <= i < n ==> (#[trigger] parsed_duration(services[i].interval@) matches Ok(d)
                    ==> duration_le(m, d))
        },
    decreases n,
{
    if n > 0 {
        lemma_shortest_interval(services, n - 1);
        let k = n - 1;
        match parsed_duration(services[k].interval@) {
            Err(_) => {},
            Ok(d) => {
                match shortest_interval(services, n - 1) {
                    None => {
                        assert(parsed_duration(services[k].interval@) == Ok::<(u64, u32), Seq<char>>(d));
                    },
                    Some(m) => {
                        if duration_le(m, d) {
                            let w = choose|i: int| 0 <= i < n - 1 && #[trigger] parsed_duration(services[i].interval@) == Ok::<(u64, u32), Seq<char>>(m);
                            assert(0 <= w < n && parsed_duration(services[w].interval@) == Ok::<(u64, u32), Seq<char>>(m));
                        } else {
                            assert(parsed_duration(services[k].interval@) == Ok::<(u64, u32), Seq<char>>(d));
                        }
                    },
                }
            },
        }
    }
}

/// Law: services are checked at the shortest interval configured. The period is never
/// shorter than 2 s; it is no longer than any service interval that parses (unless that
/// interval is under 2 s, when the period is the 2 s floor); it is one of those intervals or
/// the floor; and without any interval that parses it is 30 s.
pub proof fn services_are_checked_at_the_shortest_interval(services: Seq<ServiceConfig>)
    ensures
        duration_le((2, 0), service_period(services)),
        forall|i: int|
            0 <= i < services.len() ==> (#[trigger] parsed_duration(services[i].interval@) matches Ok(d)
                ==> (duration_le(service_period(services), d) || service_period(services) == (
                2u64,
                0u32,
            ))),
        service_period(services) == (2u64, 0u32) || some_interval_is(
            services,
            services.len() as int,
            service_period(services),
        ) || (service_period(services) == (30u64, 0u32) && forall|i: int|
            0 <= i < services.len() ==> (#[trigger] parsed_duration(services[i].interval@)) is Err),
{
    lemma_shortest_interval(services, services.len() as int);
}

} // verus!
