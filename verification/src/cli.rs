//! The command line: what the user asked for, and the decisions and texts of the
//! non-interactive commands. Parsing the arguments happens outside.

use vstd::prelude::*;

use crate::app::Tab;
use crate::model::{HealthState, ServiceStatus};
use crate::report::{state_name, state_name_text};
use crate::terminal::RunMode;
use crate::text::{decimal, decimal_string_wide, join2, join3, owned, pad_right, padded};
use crate::ui::MISSING;

verus! {

/// The parsed command line.
#[derive(Clone, Debug)]
pub struct Cli {
    /// Project directory (or configuration file) to monitor.
    pub target: Option<String>,
    pub command: Option<Command>,
}

/// A subcommand.
#[derive(Clone, Debug)]
pub enum Command {
    /// Run the interface with simulated data.
    Demo,
    /// Create a starter configuration in a directory.
    Init { path: String },
    /// Open the interface on the process view.
    Processes,
    /// Open the interface on the log view.
    Logs,
    /// Open the interface on the port view.
    Ports,
    /// Run the configured service checks once.
    Check { config: Option<String>, json: bool },
    /// Print a diagnostic report.
    Report { format: OutputFormat, config: Option<String>, redact: bool },
    /// Validate a configuration file.
    Validate { config: Option<String> },
    /// Inspect the platform and configuration.
    Doctor { json: bool },
}

/// How a report is printed.
#[derive(Clone, Copy, Debug, PartialEq, Eq, Structural)]
pub enum OutputFormat {
    Text,
    Json,
}

/// Where the interactive commands start: the data source and the first view; `None` for
/// the commands that print and exit.
pub open spec fn start_of(command: Option<Command>) -> Option<(RunMode, Tab)> {
    match command {
        None => Some((RunMode::Local, Tab::Overview)),
        Some(Command::Demo) => Some((RunMode::Demo, Tab::Overview)),
        Some(Command::Processes) => Some((RunMode::Local, Tab::Processes)),
        Some(Command::Logs) => Some((RunMode::Local, Tab::Logs)),
        Some(Command::Ports) => Some((RunMode::Local, Tab::Ports)),
        _ => None,
    }
}

/// Where an interactive command starts.
pub fn interactive_start(command: &Option<Command>) -> (r: Option<(RunMode, Tab)>)
    ensures
        r == start_of(*command),
{
    match command {
        None => Some((RunMode::Local, Tab::Overview)),
        Some(Command::Demo) => Some((RunMode::Demo, Tab::Overview)),
        Some(Command::Processes) => Some((RunMode::Local, Tab::Processes)),
        Some(Command::Logs) => Some((RunMode::Local, Tab::Logs)),
        Some(Command::Ports) => Some((RunMode::Local, Tab::Ports)),
        _ => None,
    }
}

/// The error of a check run without configured services, naming the configuration file if
/// there is one.
pub open spec fn no_services_text(path: Option<Seq<char>>) -> Seq<char> {
    "no services configured"@ + match path {
        Some(p) => " in "@ + p,
        None => Seq::empty(),
    }
}

/// The error of a check run without configured services.
pub fn no_services_message(path: Option<&str>) -> (r: String)
    ensures
        r@ == no_services_text(
            match path {
                Some(p) => Some(p@),
                None => None,
            },
        ),
{
    proof {
        reveal_strlit("no services configured");
        reveal_strlit(" in ");
    }
    match path {
        Some(p) => join3("no services configured", " in ", p),
        None => owned("no services configured"),
    }
}

/// The latency as a check line shows it.
pub open spec fn check_latency_text(latency: Option<u128>) -> Seq<char> {
    match latency {
        Some(ms) => decimal(ms as nat) + "ms"@,
        None => MISSING@,
    }
}

/// One line of the check command's text output: state, name and latency in columns of 10, 20
/// and 8 characters, then the target.
pub open spec fn check_line_text(s: ServiceStatus) -> Seq<char> {
    pad_right(state_name_text(s.state), 10) + " "@ + pad_right(s.name@, 20) + " "@ + pad_right(
        check_latency_text(s.latency_ms),
        8,
    ) + " "@ + s.target@
}

/// One line of the check command's text output.
pub fn check_line(s: &ServiceStatus) -> (r: String)
    ensures
        r@ == check_line_text(*s),
{
    proof {
        reveal_strlit("ms");
        reveal_strlit(" ");
    }
    let latency = match s.latency_ms {
        Some(ms) => join2(decimal_string_wide(ms).as_str(), "ms"),
        None => owned(MISSING),
    };
    let mut r = join2(padded(state_name(s.state), 10).as_str(), " ");
    r.append(padded(s.name.as_str(), 20).as_str());
    r.append(" ");
    r.append(padded(latency.as_str(), 8).as_str());
    r.append(" ");
    r.append(s.target.as_str());
    r
}

/// Whether some check failed.
pub open spec fn any_unhealthy(statuses: Seq<ServiceStatus>) -> bool {
    exists|i: int| 0 <= i < statuses.len() && #[trigger] statuses[i].state == HealthState::Unhealthy
}

/// The exit status of the check command: 2 when some check failed, else 0.
pub fn check_exit_code(statuses: &Vec<ServiceStatus>) -> (r: i32)
    ensures
        r == (if any_unhealthy(statuses@) {
            2i32
        } else {
            0i32
        }),
{
    let mut i: usize = 0;
    while i < statuses.len()
        invariant
            i <= statuses@.len(),
            forall|k: int| 0 <= k < i ==> statuses@[k].state != HealthState::Unhealthy,
        decreases statuses@.len() - i,
    {
        if statuses[i].state == HealthState::Unhealthy {
            return 2;
        }
        i = i + 1;
    }
    0
}

} // verus!
