//! The data that collectors produce and the interface shows.
//!
//! Percentages are held as hundredths of a percent (`2_550` is 25.5 %), so that every value
//! here is an integer.

use vstd::prelude::*;

verus! {

/// A point in time: whole seconds since the Unix epoch and the nanoseconds past them.
#[derive(Clone, Copy, Debug, PartialEq, Eq, Structural)]
pub struct Timestamp {
    pub seconds: i64,
    pub nanos: u32,
}

/// The outcome of a service health check.
#[derive(Clone, Copy, Debug, PartialEq, Eq, Structural)]
pub enum HealthState {
    Healthy,
    Unhealthy,
    Unknown,
}

/// The severity that a log line announces.
#[derive(Clone, Copy, Debug, PartialEq, Eq, Structural)]
pub enum LogLevel {
    Error,
    Warn,
    Info,
    Debug,
    Trace,
    Unknown,
}

impl LogLevel {
    /// The label shown for this level.
    pub open spec fn label_text(self) -> Seq<char> {
        match self {
            LogLevel::Error => "ERROR"@,
            LogLevel::Warn => "WARN"@,
            LogLevel::Info => "INFO"@,
            LogLevel::Debug => "DEBUG"@,
            LogLevel::Trace => "TRACE"@,
            LogLevel::Unknown => "UNKNOWN"@,
        }
    }

    /// The label shown for this level.
    pub fn label(self) -> (r: &'static str)
        ensures
            r@ == self.label_text(),
    {
        match self {
            LogLevel::Error => "ERROR",
            LogLevel::Warn => "WARN",
            LogLevel::Info => "INFO",
            LogLevel::Debug => "DEBUG",
            LogLevel::Trace => "TRACE",
            LogLevel::Unknown => "UNKNOWN",
        }
    }
}

/// The transport protocol of a socket.
#[derive(Clone, Copy, Debug, PartialEq, Eq, Structural)]
pub enum SocketProtocol {
    Tcp,
    Udp,
}

/// Load averages over one, five and fifteen minutes, in hundredths.
#[derive(Clone, Copy, Debug, PartialEq, Eq, Structural)]
pub struct LoadAverage {
    pub one: u64,
    pub five: u64,
    pub fifteen: u64,
}

/// One running process.
#[derive(Clone, Debug)]
pub struct ProcessSnapshot {
    pub pid: u32,
    pub name: String,
    /// CPU usage in hundredths of a percent of one core.
    pub cpu_usage_hundredths: u32,
    pub memory_bytes: u64,
    pub virtual_memory_bytes: u64,
    pub status: String,
    pub run_time_seconds: u64,
    pub command: String,
}

/// One mounted disk.
#[derive(Clone, Debug)]
pub struct DiskSnapshot {
    pub name: String,
    pub mount_point: String,
    pub file_system: String,
    pub kind: String,
    pub total_bytes: u64,
    pub available_bytes: u64,
}

impl DiskSnapshot {
    /// The bytes in use: the total less what is available, and zero if more is available than
    /// the total.
    pub open spec fn used(self) -> nat {
        if self.total_bytes >= self.available_bytes {
            (self.total_bytes - self.available_bytes) as nat
        } else {
            0
        }
    }

    /// The bytes in use.
    pub fn used_bytes(&self) -> (r: u64)
        ensures
            r == self.used(),
    {
        self.total_bytes.saturating_sub(self.available_bytes)
    }
}

/// One network interface.
#[derive(Clone, Debug)]
pub struct NetworkSnapshot {
    pub interface: String,
    pub received_bytes: u64,
    pub transmitted_bytes: u64,
    pub total_received_bytes: u64,
    pub total_transmitted_bytes: u64,
    pub packets_received: u64,
    pub packets_transmitted: u64,
    pub errors_received: u64,
    pub errors_transmitted: u64,
}

/// The result of one service health check.
#[derive(Clone, Debug)]
pub struct ServiceStatus {
    pub name: String,
    pub target: String,
    pub state: HealthState,
    pub latency_ms: Option<u128>,
    pub status_code: Option<u16>,
    pub checked_at: Timestamp,
    pub message: Option<String>,
}

/// One listening port or open socket.
#[derive(Clone, Debug)]
pub struct SocketSnapshot {
    pub protocol: SocketProtocol,
    pub local_address: String,
    pub local_port: u16,
    pub remote_address: Option<String>,
    pub remote_port: Option<u16>,
    pub state: String,
    pub associated_pids: Vec<u32>,
    pub process_names: Vec<String>,
}

/// One line read from a log source.
#[derive(Clone, Debug)]
pub struct LogEntry {
    pub sequence: u64,
    pub source: String,
    pub level: LogLevel,
    pub line: String,
}

/// Whether a log source could be read on the last poll.
#[derive(Clone, Debug)]
pub struct LogSourceStatus {
    pub name: String,
    pub path: String,
    pub available: bool,
    pub message: Option<String>,
}

/// Everything collected about the machine at one moment.
#[derive(Clone, Debug)]
pub struct SystemSnapshot {
    pub timestamp: Timestamp,
    pub host_name: String,
    pub os_name: String,
    pub kernel_version: String,
    pub uptime_seconds: Option<u64>,
    /// Overall CPU usage in hundredths of a percent.
    pub cpu_usage_hundredths: u32,
    pub load_average: LoadAverage,
    pub memory_used_bytes: u64,
    pub memory_total_bytes: u64,
    pub swap_used_bytes: u64,
    pub swap_total_bytes: u64,
    pub processes: Vec<ProcessSnapshot>,
    pub disks: Vec<DiskSnapshot>,
    pub networks: Vec<NetworkSnapshot>,
    pub services: Vec<ServiceStatus>,
    pub sockets: Vec<SocketSnapshot>,
}

} // verus!
