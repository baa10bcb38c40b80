//! What the interface shows: the texts of table cells, titles, notices and detail panels.
//! Drawing them (layout, colours, borders) happens outside; it takes these texts as they are.

use vstd::prelude::*;

use crate::app::App;
use crate::format::{
    byte_text, bytes, duration, duration_text, hundredths_to_tenths, percent, percent_tenths,
    round_div, tenths, tenths_text,
};
use crate::model::{
    DiskSnapshot, HealthState, LogEntry, NetworkSnapshot, ProcessSnapshot, ServiceStatus,
    SocketProtocol, SocketSnapshot,
};
use crate::report::{state_name, state_name_text};
use crate::text::{
    chars_of, decimal, decimal_string, decimal_string_wide, decimals, join2, join3,
    join_numbers, join_strings, join_texts, owned, prefix_of, push_char, string_of, texts,
};
use crate::time::{representable, rfc3339, rfc3339_text};

verus! {

/// The character that marks a shortened text.
pub const ELLIPSIS: char = '\u{2026}';

/// The dash shown for a value that is missing.
pub const MISSING: &'static str = "\u{2014}";

/// `value` cut to at most `maximum` characters, the last one replaced by an ellipsis when
/// something was cut.
pub open spec fn truncated(value: Seq<char>, maximum: nat) -> Seq<char> {
    if value.len() <= maximum {
        value
    } else if maximum > 1 {
        value.take(maximum - 1).push(ELLIPSIS)
    } else {
        seq![ELLIPSIS]
    }
}

/// `value` cut to at most `maximum` characters, the last one replaced by an ellipsis when
/// something was cut.
pub fn truncate(value: &str, maximum: usize) -> (r: String)
    ensures
        r@ == truncated(value@, maximum as nat),
{
    let cs = chars_of(value);
    if cs.len() <= maximum {
        owned(value)
    } else if maximum > 1 {
        let mut kept = prefix_of(&cs, maximum - 1);
        kept.push(ELLIPSIS);
        string_of(&kept)
    } else {
        let mut r = String::new();
        push_char(&mut r, ELLIPSIS);
        assert(r@ =~= seq![ELLIPSIS]);
        r
    }
}

/// How close a usage is to full, which decides its colour.
#[derive(Clone, Copy, Debug, PartialEq, Eq, Structural)]
pub enum Level {
    /// Below 75 %.
    Good,
    /// From 75 % up to 90 %.
    Warn,
    /// 90 % or more.
    Bad,
}

/// The level of the share `used / total` (a zero total counts as nothing used).
pub open spec fn level_of(used: nat, total: nat) -> Level {
    if total > 0 && 10 * used >= 9 * total {
        Level::Bad
    } else if total > 0 && 4 * used >= 3 * total {
        Level::Warn
    } else {
        Level::Good
    }
}

/// The level of the share `used / total`.
pub fn level(used: u64, total: u64) -> (r: Level)
    ensures
        r == level_of(used as nat, total as nat),
{
    let u = used as u128;
    let t = total as u128;
    if t > 0 && 10 * u >= 9 * t {
        Level::Bad
    } else if t > 0 && 4 * u >= 3 * t {
        Level::Warn
    } else {
        Level::Good
    }
}

/// A CPU share in hundredths of a percent, written with one decimal and a percent sign.
pub open spec fn cpu_text(hundredths: u32) -> Seq<char> {
    tenths_text(round_div(hundredths as nat, 10)) + "%"@
}

/// A CPU share written with one decimal and a percent sign.
pub fn cpu(hundredths: u32) -> (r: String)
    ensures
        r@ == cpu_text(hundredths),
{
    let number = tenths(hundredths_to_tenths(hundredths));
    proof {
        reveal_strlit("%");
    }
    join2(number.as_str(), "%")
}

/// The cells of a process row: PID, name, CPU, memory, status, command.
pub open spec fn process_cells(p: ProcessSnapshot) -> Seq<Seq<char>> {
    seq![
        decimal(p.pid as nat),
        p.name@,
        cpu_text(p.cpu_usage_hundredths),
        byte_text(p.memory_bytes as nat),
        p.status@,
        p.command@,
    ]
}

/// The cells of a process row.
pub fn process_row(p: &ProcessSnapshot) -> (r: Vec<String>)
    ensures
        texts(r@) == process_cells(*p),
{
    let r = vec![
        decimal_string(p.pid as u64),
        p.name.clone(),
        cpu(p.cpu_usage_hundredths),
        bytes(p.memory_bytes),
        p.status.clone(),
        p.command.clone(),
    ];
    assert(texts(r@) =~= process_cells(*p));
    r
}

/// The cells of a row of the overview's top processes: PID, name, CPU, memory.
pub fn top_process_row(p: &ProcessSnapshot) -> (r: Vec<String>)
    ensures
        texts(r@) == process_cells(*p).take(4),
{
    let r = vec![
        decimal_string(p.pid as u64),
        p.name.clone(),
        cpu(p.cpu_usage_hundredths),
        bytes(p.memory_bytes),
    ];
    assert(texts(r@) =~= process_cells(*p).take(4));
    r
}

/// The symbol shown for a health state.
pub open spec fn state_symbol_text(state: HealthState) -> Seq<char> {
    match state {
        HealthState::Healthy | HealthState::Unhealthy => seq!['\u{25cf}'],
        HealthState::Unknown => seq!['\u{25cb}'],
    }
}

/// The latency with its unit, or a dash.
pub open spec fn latency_text(latency: Option<u128>) -> Seq<char> {
    match latency {
        Some(ms) => decimal(ms as nat) + " ms"@,
        None => MISSING@,
    }
}

/// The HTTP status code, or a dash.
pub open spec fn code_text(code: Option<u16>) -> Seq<char> {
    match code {
        Some(c) => decimal(c as nat),
        None => MISSING@,
    }
}

/// The message, or nothing.
pub open spec fn message_text(message: Option<String>) -> Seq<char> {
    match message {
        Some(m) => m@,
        None => Seq::empty(),
    }
}

/// The cells of a service row: symbol, name, state, latency, status code, target, detail.
pub open spec fn service_cells(s: ServiceStatus) -> Seq<Seq<char>> {
    seq![
        state_symbol_text(s.state),
        s.name@,
        state_name_text(s.state),
        latency_text(s.latency_ms),
        code_text(s.status_code),
        s.target@,
        message_text(s.message),
    ]
}

/// The symbol shown for a health state.
fn state_symbol(state: HealthState) -> (r: String)
    ensures
        r@ == state_symbol_text(state),
{
    let mut r = String::new();
    match state {
        HealthState::Healthy | HealthState::Unhealthy => push_char(&mut r, '\u{25cf}'),
        HealthState::Unknown => push_char(&mut r, '\u{25cb}'),
    }
    assert(r@ =~= state_symbol_text(state));
    r
}

/// The latency with its unit, or a dash.
pub fn latency(value: Option<u128>) -> (r: String)
    ensures
        r@ == latency_text(value),
{
    match value {
        Some(ms) => {
            let digits = decimal_string_wide(ms);
            proof {
                reveal_strlit(" ms");
            }
            join2(digits.as_str(), " ms")
        },
        None => owned(MISSING),
    }
}

/// The HTTP status code, or a dash.
pub fn status_code(value: Option<u16>) -> (r: String)
    ensures
        r@ == code_text(value),
{
    match value {
        Some(c) => decimal_string(c as u64),
        None => owned(MISSING),
    }
}

/// The cells of a service row.
pub fn service_row(s: &ServiceStatus) -> (r: Vec<String>)
    ensures
        texts(r@) == service_cells(*s),
{
    let message = match &s.message {
        Some(m) => m.clone(),
        None => String::new(),
    };
    let r = vec![
        state_symbol(s.state),
        s.name.clone(),
        owned(state_name(s.state)),
        latency(s.latency_ms),
        status_code(s.status_code),
        s.target.clone(),
        message,
    ];
    assert(texts(r@) =~= service_cells(*s));
    r
}

/// The cells of a network row: interface, current and total traffic each way, and errors.
pub open spec fn network_cells(n: NetworkSnapshot) -> Seq<Seq<char>> {
    seq![
        n.interface@,
        byte_text(n.received_bytes as nat),
        byte_text(n.transmitted_bytes as nat),
        byte_text(n.total_received_bytes as nat),
        byte_text(n.total_transmitted_bytes as nat),
        decimal(n.errors_received as nat),
        decimal(n.errors_transmitted as nat),
    ]
}

/// The cells of a network row.
pub fn network_row(n: &NetworkSnapshot) -> (r: Vec<String>)
    ensures
        texts(r@) == network_cells(*n),
{
    let r = vec![
        n.interface.clone(),
        bytes(n.received_bytes),
        bytes(n.transmitted_bytes),
        bytes(n.total_received_bytes),
        bytes(n.total_transmitted_bytes),
        decimal_string(n.errors_received),
        decimal_string(n.errors_transmitted),
    ];
    assert(texts(r@) =~= network_cells(*n));
    r
}

/// The cells of a log row: sequence number, source, level, message.
pub open spec fn log_cells(e: LogEntry) -> Seq<Seq<char>> {
    seq![decimal(e.sequence as nat), e.source@, e.level.label_text(), e.line@]
}

/// The cells of a log row.
pub fn log_row(e: &LogEntry) -> (r: Vec<String>)
    ensures
        texts(r@) == log_cells(*e),
{
    let r = vec![decimal_string(e.sequence), e.source.clone(), owned(e.level.label()), e.line.clone()];
    assert(texts(r@) =~= log_cells(*e));
    r
}

/// The protocol as the port table shows it.
pub open spec fn protocol_text(p: SocketProtocol) -> Seq<char> {
    match p {
        SocketProtocol::Tcp => "TCP"@,
        SocketProtocol::Udp => "UDP"@,
    }
}

/// The cells of a socket row: protocol, address, port, state, process IDs, process names.
pub open spec fn socket_cells(s: SocketSnapshot) -> Seq<Seq<char>> {
    seq![
        protocol_text(s.protocol),
        s.local_address@,
        decimal(s.local_port as nat),
        s.state@,
        join_texts(decimals(s.associated_pids@), ","@),
        join_texts(texts(s.process_names@), ", "@),
    ]
}

/// The cells of a socket row.
pub fn socket_row(s: &SocketSnapshot) -> (r: Vec<String>)
    ensures
        texts(r@) == socket_cells(*s),
{
    proof {
        reveal_strlit("TCP");
        reveal_strlit("UDP");
    }
    let protocol = match s.protocol {
        SocketProtocol::Tcp => owned("TCP"),
        SocketProtocol::Udp => owned("UDP"),
    };
    let r = vec![
        protocol,
        s.local_address.clone(),
        decimal_string(s.local_port as u64),
        s.state.clone(),
        join_numbers(&s.associated_pids, ","),
        join_strings(&s.process_names, ", "),
    ];
    assert(texts(r@) =~= socket_cells(*s));
    r
}

/// The cells of a disk row: name, mount point, file system, kind, used, total, usage.
pub open spec fn disk_cells(d: DiskSnapshot) -> Seq<Seq<char>> {
    seq![
        d.name@,
        d.mount_point@,
        d.file_system@,
        d.kind@,
        byte_text(d.used()),
        byte_text(d.total_bytes as nat),
        tenths_text(percent_tenths(d.used(), d.total_bytes as nat)) + "%"@,
    ]
}

/// The cells of a disk row.
pub fn disk_row(d: &DiskSnapshot) -> (r: Vec<String>)
    ensures
        texts(r@) == disk_cells(*d),
{
    let used = d.used_bytes();
    let usage = tenths(percent(used, d.total_bytes));
    proof {
        reveal_strlit("%");
    }
    let r = vec![
        d.name.clone(),
        d.mount_point.clone(),
        d.file_system.clone(),
        d.kind.clone(),
        bytes(used),
        bytes(d.total_bytes),
        join2(usage.as_str(), "%"),
    ];
    assert(texts(r@) =~= disk_cells(*d));
    r
}

/// The level that colours a disk row.
pub fn disk_level(d: &DiskSnapshot) -> (r: Level)
    ensures
        r == level_of(d.used(), d.total_bytes as nat),
{
    level(d.used_bytes(), d.total_bytes)
}

/// A detail panel: its title and its lines.
#[derive(Clone, Debug)]
pub struct Details {
    pub title: String,
    pub lines: Vec<String>,
}

/// Whether chrono can write every service check's time.
pub open spec fn check_times_representable(services: Seq<ServiceStatus>) -> bool {
    forall|i: int| 0 <= i < services.len() ==> representable(#[trigger] services[i].checked_at)
}

/// Whether chrono can write every service check's time.
pub fn check_times_ok(services: &Vec<ServiceStatus>) -> (r: bool)
    ensures
        r == check_times_representable(services@),
{
    let mut i: usize = 0;
    while i < services.len()
        invariant
            i <= services@.len(),
            forall|k: int| 0 <= k < i ==> representable(#[trigger] services@[k].checked_at),
        decreases services@.len() - i,
    {
        if !crate::time::is_representable(services[i].checked_at) {
            return false;
        }
        i = i + 1;
    }
    true
}

/// The detail panel of a process.
pub open spec fn process_details(p: ProcessSnapshot) -> (Seq<char>, Seq<Seq<char>>) {
    (
        " Process "@ + decimal(p.pid as nat) + " "@,
        seq![
            p.name@,
            "PID       "@ + decimal(p.pid as nat),
            "Status    "@ + p.status@,
            "CPU       "@ + cpu_text(p.cpu_usage_hundredths),
            "Memory    "@ + byte_text(p.memory_bytes as nat),
            "Virtual   "@ + byte_text(p.virtual_memory_bytes as nat),
            "Runtime   "@ + duration_text(p.run_time_seconds as nat),
            Seq::empty(),
            "Command"@,
            if p.command@.len() == 0 {
                MISSING@
            } else {
                p.command@
            },
        ],
    )
}

/// The detail panel of a service check.
pub open spec fn service_details(s: ServiceStatus) -> (Seq<char>, Seq<Seq<char>>) {
    (
        " Service "@ + s.name@ + " "@,
        seq![
            "State     "@ + state_name_text(s.state),
            "Target    "@ + s.target@,
            "Latency   "@ + latency_text(s.latency_ms),
            "HTTP      "@ + code_text(s.status_code),
            "Checked   "@ + rfc3339_text(s.checked_at.seconds, s.checked_at.nanos),
            Seq::empty(),
            match s.message {
                Some(m) => m@,
                None => "No errors"@,
            },
        ],
    )
}

/// The detail panel of a log line.
pub open spec fn log_details(e: LogEntry) -> (Seq<char>, Seq<Seq<char>>) {
    (
        " Log "@ + decimal(e.sequence as nat) + " "@,
        seq!["Source    "@ + e.source@, "Level     "@ + e.level.label_text(), Seq::empty(), e.line@],
    )
}

/// The protocol as `{:?}` writes it.
pub open spec fn protocol_name(p: SocketProtocol) -> Seq<char> {
    match p {
        SocketProtocol::Tcp => "Tcp"@,
        SocketProtocol::Udp => "Udp"@,
    }
}

/// The detail panel of a socket.
pub open spec fn socket_details(s: SocketSnapshot) -> (Seq<char>, Seq<Seq<char>>) {
    (
        " Port "@ + decimal(s.local_port as nat) + " "@,
        seq![
            "Protocol  "@ + protocol_name(s.protocol),
            "Local     "@ + s.local_address@ + ":"@ + decimal(s.local_port as nat),
            "State     "@ + s.state@,
            "PID       "@ + join_texts(decimals(s.associated_pids@), ", "@),
            "Process   "@ + join_texts(texts(s.process_names@), ", "@),
        ],
    )
}

/// The detail panel for the current view: that of the selected item, a notice when nothing
/// is selected, and none for the views without details.
pub open spec fn details_view(app: App) -> Option<(Seq<char>, Seq<Seq<char>>)> {
    match app.tab {
        crate::app::Tab::Processes => Some(
            if app.selected_process < app.shown_processes().len() {
                process_details(app.shown_processes()[app.selected_process as int])
            } else {
                (" Process "@, seq!["No process selected"@])
            },
        ),
        crate::app::Tab::Services => Some(
            if app.selected_service < app.snapshot.services@.len() {
                service_details(app.snapshot.services@[app.selected_service as int])
            } else {
                (" Service "@, seq!["No service selected"@])
            },
        ),
        crate::app::Tab::Logs => Some(
            if app.selected_log < app.shown_logs().len() {
                log_details(app.shown_logs()[app.selected_log as int])
            } else {
                (" Log "@, seq!["No log selected"@])
            },
        ),
        crate::app::Tab::Ports => Some(
            if app.selected_socket < app.shown_sockets().len() {
                socket_details(app.shown_sockets()[app.selected_socket as int])
            } else {
                (" Port "@, seq!["No socket selected"@])
            },
        ),
        _ => None,
    }
}

/// A title with a number between two texts.
fn numbered_title(before: &str, n: u64) -> (r: String)
    ensures
        r@ == before@ + decimal(n as nat) + " "@,
{
    let digits = decimal_string(n);
    proof {
        reveal_strlit(" ");
    }
    join3(before, digits.as_str(), " ")
}

/// A panel holding one line.
fn notice(title: &str, line: &str) -> (r: Details)
    ensures
        r.title@ == title@,
        texts(r.lines@) == seq![line@],
{
    let r = Details { title: owned(title), lines: vec![owned(line)] };
    assert(texts(r.lines@) =~= seq![line@]);
    r
}

/// The detail panel of a process.
pub fn process_panel(p: &ProcessSnapshot) -> (r: Details)
    ensures
        (r.title@, texts(r.lines@)) == process_details(*p),
{
    proof {
        reveal_strlit(" Process ");
        reveal_strlit("PID       ");
        reveal_strlit("Status    ");
        reveal_strlit("CPU       ");
        reveal_strlit("Memory    ");
        reveal_strlit("Virtual   ");
        reveal_strlit("Runtime   ");
        reveal_strlit("Command");
    }
    let pid = decimal_string(p.pid as u64);
    let command = if p.command.as_str().unicode_len() == 0 {
        owned(MISSING)
    } else {
        p.command.clone()
    };
    let lines = vec![
        p.name.clone(),
        join2("PID       ", pid.as_str()),
        join2("Status    ", p.status.as_str()),
        join2("CPU       ", cpu(p.cpu_usage_hundredths).as_str()),
        join2("Memory    ", bytes(p.memory_bytes).as_str()),
        join2("Virtual   ", bytes(p.virtual_memory_bytes).as_str()),
        join2("Runtime   ", duration(p.run_time_seconds).as_str()),
        String::new(),
        owned("Command"),
        command,
    ];
    let r = Details { title: numbered_title(" Process ", p.pid as u64), lines };
    assert(texts(r.lines@) =~= process_details(*p).1);
    r
}

/// The detail panel of a service check whose time chrono can write.
pub fn service_panel(s: &ServiceStatus) -> (r: Details)
    requires
        representable(s.checked_at),
    ensures
        (r.title@, texts(r.lines@)) == service_details(*s),
{
    proof {
        reveal_strlit(" Service ");
        reveal_strlit(" ");
        reveal_strlit("State     ");
        reveal_strlit("Target    ");
        reveal_strlit("Latency   ");
        reveal_strlit("HTTP      ");
        reveal_strlit("Checked   ");
        reveal_strlit("No errors");
    }
    let last = match &s.message {
        Some(m) => m.clone(),
        None => owned("No errors"),
    };
    let lines = vec![
        join2("State     ", state_name(s.state)),
        join2("Target    ", s.target.as_str()),
        join2("Latency   ", latency(s.latency_ms).as_str()),
        join2("HTTP      ", status_code(s.status_code).as_str()),
        join2("Checked   ", rfc3339(s.checked_at).as_str()),
        String::new(),
        last,
    ];
    let r = Details { title: join3(" Service ", s.name.as_str(), " "), lines };
    assert(texts(r.lines@) =~= service_details(*s).1);
    r
}

/// The detail panel of a log line.
pub fn log_panel(e: &LogEntry) -> (r: Details)
    ensures
        (r.title@, texts(r.lines@)) == log_details(*e),
{
    proof {
        reveal_strlit(" Log ");
        reveal_strlit("Source    ");
        reveal_strlit("Level     ");
    }
    let lines = vec![
        join2("Source    ", e.source.as_str()),
        join2("Level     ", e.level.label()),
        String::new(),
        e.line.clone(),
    ];
    let r = Details { title: numbered_title(" Log ", e.sequence), lines };
    assert(texts(r.lines@) =~= log_details(*e).1);
    r
}

/// The detail panel of a socket.
pub fn socket_panel(s: &SocketSnapshot) -> (r: Details)
    ensures
        (r.title@, texts(r.lines@)) == socket_details(*s),
{
    proof {
        reveal_strlit(" Port ");
        reveal_strlit("Protocol  ");
        reveal_strlit("Local     ");
        reveal_strlit(":");
        reveal_strlit("State     ");
        reveal_strlit("PID       ");
        reveal_strlit("Process   ");
        reveal_strlit("Tcp");
        reveal_strlit("Udp");
    }
    let protocol = match s.protocol {
        SocketProtocol::Tcp => "Tcp",
        SocketProtocol::Udp => "Udp",
    };
    let port = decimal_string(s.local_port as u64);
    let mut local = join3("Local     ", s.local_address.as_str(), ":");
    local.append(port.as_str());
    let lines = vec![
        join2("Protocol  ", protocol),
        local,
        join2("State     ", s.state.as_str()),
        join2("PID       ", join_numbers(&s.associated_pids, ", ").as_str()),
        join2("Process   ", join_strings(&s.process_names, ", ").as_str()),
    ];
    let r = Details { title: numbered_title(" Port ", s.local_port as u64), lines };
    assert(texts(r.lines@) =~= socket_details(*s).1);
    r
}

/// The detail panel for the current view.
pub fn details(app: &App) -> (r: Option<Details>)
    requires
        check_times_representable(app.snapshot.services@),
    ensures
        r is Some == details_view(*app) is Some,
        r matches Some(d) ==> (d.title@, texts(d.lines@)) == details_view(*app)->0,
{
    proof {
        reveal_strlit(" Process ");
        reveal_strlit("No process selected");
        reveal_strlit(" Service ");
        reveal_strlit("No service selected");
        reveal_strlit(" Log ");
        reveal_strlit("No log selected");
        reveal_strlit(" Port ");
        reveal_strlit("No socket selected");
    }
    match app.tab {
        crate::app::Tab::Processes => match app.selected_process() {
            Some(p) => Some(process_panel(p)),
            None => Some(notice(" Process ", "No process selected")),
        },
        crate::app::Tab::Services => match app.selected_service() {
            Some(s) => Some(service_panel(s)),
            None => Some(notice(" Service ", "No service selected")),
        },
        crate::app::Tab::Logs => match app.selected_log() {
            Some(e) => Some(log_panel(e)),
            None => Some(notice(" Log ", "No log selected")),
        },
        crate::app::Tab::Ports => match app.selected_socket() {
            Some(s) => Some(socket_panel(s)),
            None => Some(notice(" Port ", "No socket selected")),
        },
        _ => None,
    }
}

/// The separator between parts of a title.
pub open spec fn dot() -> Seq<char> {
    " \u{00b7} "@
}

/// The header title: host, configuration context and whether updates are live.
pub open spec fn header_text(host: Seq<char>, context: Seq<char>, paused: bool) -> Seq<char> {
    " WSENTRY"@ + dot() + host + dot() + context + dot() + (if paused {
        "PAUSED"@
    } else {
        "LIVE"@
    }) + " "@
}

/// The header title.
pub fn header_title(host: &str, context: &str, paused: bool) -> (r: String)
    ensures
        r@ == header_text(host@, context@, paused),
{
    proof {
        reveal_strlit(" WSENTRY");
        reveal_strlit(" \u{00b7} ");
        reveal_strlit("PAUSED");
        reveal_strlit("LIVE");
        reveal_strlit(" ");
    }
    let mut r = join3(" WSENTRY", " \u{00b7} ", host);
    r.append(" \u{00b7} ");
    r.append(context);
    r.append(" \u{00b7} ");
    r.append(if paused {
        "PAUSED"
    } else {
        "LIVE"
    });
    r.append(" ");
    r
}

/// The search filter part of a title: nothing without a search.
pub open spec fn filter_text(search: Seq<char>) -> Seq<char> {
    if search.len() == 0 {
        Seq::empty()
    } else {
        dot() + "filter: "@ + search
    }
}

/// The search filter part of a title.
fn filter_part(search: &str) -> (r: String)
    ensures
        r@ == filter_text(search@),
{
    proof {
        reveal_strlit(" \u{00b7} ");
        reveal_strlit("filter: ");
    }
    if search.unicode_len() == 0 {
        String::new()
    } else {
        join3(" \u{00b7} ", "filter: ", search)
    }
}

/// The title of the process view: the count, or the search.
pub open spec fn processes_title_text(app: App) -> Seq<char> {
    if app.search@.len() == 0 {
        " Processes"@ + dot() + decimal(app.snapshot.processes@.len()) + " total "@
    } else {
        " Processes"@ + dot() + "filter: "@ + app.search@ + " "@
    }
}

/// The title of the process view.
pub fn processes_title(app: &App) -> (r: String)
    ensures
        r@ == processes_title_text(*app),
{
    proof {
        reveal_strlit(" Processes");
        reveal_strlit(" \u{00b7} ");
        reveal_strlit(" total ");
        reveal_strlit("filter: ");
        reveal_strlit(" ");
    }
    let mut r = join2(" Processes", " \u{00b7} ");
    if app.search.as_str().unicode_len() == 0 {
        r.append(decimal_string(app.snapshot.processes.len() as u64).as_str());
        r.append(" total ");
    } else {
        r.append("filter: ");
        r.append(app.search.as_str());
        r.append(" ");
    }
    r
}

/// The title of the log view: lines buffered, the search, and sources that failed.
pub open spec fn logs_title_text(app: App) -> Seq<char> {
    let unavailable = app.log_sources@.filter(|l: crate::model::LogSourceStatus| !l.available).len();
    " Logs"@ + dot() + decimal(app.logs@.len()) + " buffered"@ + filter_text(app.search@) + (
    if unavailable == 0 {
        Seq::empty()
    } else {
        dot() + decimal(unavailable) + " source issue(s)"@
    }) + " "@
}

/// The title of the log view.
pub fn logs_title(app: &App) -> (r: String)
    ensures
        r@ == logs_title_text(*app),
{
    proof {
        reveal_strlit(" Logs");
        reveal_strlit(" \u{00b7} ");
        reveal_strlit(" buffered");
        reveal_strlit(" source issue(s)");
        reveal_strlit(" ");
    }
    let unavailable = crate::app::unavailable_sources(&app.log_sources);
    let mut r = join2(" Logs", " \u{00b7} ");
    r.append(decimal_string(app.logs.len() as u64).as_str());
    r.append(" buffered");
    r.append(filter_part(app.search.as_str()).as_str());
    if unavailable > 0 {
        r.append(" \u{00b7} ");
        r.append(decimal_string(unavailable as u64).as_str());
        r.append(" source issue(s)");
    }
    r.append(" ");
    r
}

/// The title of the port view.
pub open spec fn ports_title_text(app: App) -> Seq<char> {
    " Ports and sockets"@ + filter_text(app.search@) + " "@
}

/// The title of the port view.
pub fn ports_title(app: &App) -> (r: String)
    ensures
        r@ == ports_title_text(*app),
{
    proof {
        reveal_strlit(" Ports and sockets");
        reveal_strlit(" ");
    }
    join3(" Ports and sockets", filter_part(app.search.as_str()).as_str(), " ")
}

/// What the service view says instead of a table, if anything.
pub open spec fn services_notice_text(app: App) -> Option<Seq<char>> {
    if app.snapshot.services@.len() > 0 {
        None
    } else if app.config.service@.len() == 0 {
        Some(
            "No services configured. Run `wsentry init` or add [[service]] entries to wsentry.toml."@,
        )
    } else {
        Some("Service checks have not completed yet."@)
    }
}

/// What the service view says instead of a table, if anything.
pub fn services_notice(app: &App) -> (r: Option<&'static str>)
    ensures
        r matches Some(t) ==> services_notice_text(*app) == Some(t@),
        r is None ==> services_notice_text(*app) is None,
{
    if app.snapshot.services.len() > 0 {
        None
    } else if app.config.service.len() == 0 {
        Some(
            "No services configured. Run `wsentry init` or add [[service]] entries to wsentry.toml.",
        )
    } else {
        Some("Service checks have not completed yet.")
    }
}

/// What the log view says instead of a table, if anything.
pub open spec fn logs_notice_text(app: App) -> Option<Seq<char>> {
    if app.config.log@.len() == 0 && app.logs@.len() == 0 {
        Some("No logs configured. Add [[log]] entries to wsentry.toml, then set name and path."@)
    } else {
        None
    }
}

/// What the log view says instead of a table, if anything.
pub fn logs_notice(app: &App) -> (r: Option<&'static str>)
    ensures
        r matches Some(t) ==> logs_notice_text(*app) == Some(t@),
        r is None ==> logs_notice_text(*app) is None,
{
    if app.config.log.len() == 0 && app.logs.len() == 0 {
        Some("No logs configured. Add [[log]] entries to wsentry.toml, then set name and path.")
    } else {
        None
    }
}

/// What the port view says instead of a table, if anything: why collection failed, or that
/// nothing was found.
pub open spec fn ports_notice_text(app: App) -> Option<Seq<char>> {
    if app.snapshot.sockets@.len() > 0 {
        None
    } else {
        Some(
            match app.socket_error {
                Some(e) => e@,
                None => "No listening ports or active sockets were discovered for visible processes."@,
            },
        )
    }
}

/// What the port view says instead of a table, if anything.
pub fn ports_notice(app: &App) -> (r: Option<String>)
    ensures
        r matches Some(t) ==> ports_notice_text(*app) == Some(t@),
        r is None ==> ports_notice_text(*app) is None,
{
    if app.snapshot.sockets.len() > 0 {
        None
    } else {
        match &app.socket_error {
            Some(e) => Some(e.clone()),
            None => Some(
                owned(
                    "No listening ports or active sockets were discovered for visible processes.",
                ),
            ),
        }
    }
}

/// The lines of the overview's system panel: host, operating system cut to `width`, kernel,
/// uptime and load averages.
pub open spec fn identity_text(s: crate::model::SystemSnapshot, width: nat) -> Seq<Seq<char>> {
    seq![
        s.host_name@,
        truncated(s.os_name@, width),
        "Kernel  "@ + s.kernel_version@,
        "Uptime  "@ + crate::report::uptime_text(s.uptime_seconds),
        "Load    "@ + crate::format::hundredths_text(s.load_average.one as nat) + "  "@
            + crate::format::hundredths_text(s.load_average.five as nat) + "  "@
            + crate::format::hundredths_text(s.load_average.fifteen as nat),
    ]
}

/// The lines of the overview's system panel for a panel `panel_width` cells wide (the
/// operating system is cut to the width inside the borders and margins).
pub fn identity_lines(s: &crate::model::SystemSnapshot, panel_width: u16) -> (r: Vec<String>)
    ensures
        texts(r@) == identity_text(
            *s,
            if panel_width >= 4 {
                (panel_width - 4) as nat
            } else {
                0
            },
        ),
{
    proof {
        reveal_strlit("Kernel  ");
        reveal_strlit("Uptime  ");
        reveal_strlit("Load    ");
        reveal_strlit("  ");
    }
    let width = panel_width.saturating_sub(4) as usize;
    let mut load = join2("Load    ", crate::format::hundredths(s.load_average.one).as_str());
    load.append("  ");
    load.append(crate::format::hundredths(s.load_average.five).as_str());
    load.append("  ");
    load.append(crate::format::hundredths(s.load_average.fifteen).as_str());
    let r = vec![
        s.host_name.clone(),
        truncate(s.os_name.as_str(), width),
        join2("Kernel  ", s.kernel_version.as_str()),
        join2("Uptime  ", crate::report::uptime(s.uptime_seconds).as_str()),
        load,
    ];
    assert(texts(r@) =~= identity_text(*s, width as nat));
    r
}

/// A resource gauge: its label text, its share in tenths of a percent and its level.
#[derive(Clone, Debug)]
pub struct Gauge {
    pub label: String,
    pub tenths: u128,
    pub level: Level,
}

/// The gauge label: the name in four columns, then the share right-aligned in five.
pub open spec fn gauge_text(name: Seq<char>, tenths: nat) -> Seq<char> {
    crate::text::pad_right(name, 4) + " "@ + crate::text::pad_left(tenths_text(tenths), 5) + "%"@
}

/// A gauge for `used` out of `total`.
pub open spec fn gauge_of(g: Gauge, name: Seq<char>, used: nat, total: nat) -> bool {
    &&& g.tenths == percent_tenths(used, total)
    &&& g.label@ == gauge_text(name, percent_tenths(used, total))
    &&& g.level == level_of(used, total)
}

/// A gauge for `used` out of `total`.
pub fn gauge(name: &str, used: u64, total: u64) -> (r: Gauge)
    ensures
        gauge_of(r, name@, used as nat, total as nat),
{
    let t = percent(used, total);
    let number = tenths(t);
    proof {
        reveal_strlit(" ");
        reveal_strlit("%");
    }
    let mut label = join2(crate::text::padded(name, 4).as_str(), " ");
    label.append(crate::text::padded_left(number.as_str(), 5).as_str());
    label.append("%");
    Gauge { label, tenths: t, level: level(used, total) }
}

/// Whether the share `a / b` is above `c / d`, a zero total counting as nothing used.
pub open spec fn share_above(a: nat, b: nat, c: nat, d: nat) -> bool {
    &&& b > 0
    &&& if d == 0 {
        a > 0
    } else {
        a * d > c * b
    }
}

/// The fullest disk's space in use and total (nothing of nothing without disks), taking the
/// first of equally full disks.
pub open spec fn fullest_disk(disks: Seq<DiskSnapshot>) -> (nat, nat)
    decreases disks.len(),
{
    if disks.len() == 0 {
        (0, 0)
    } else {
        let (u, t) = fullest_disk(disks.drop_last());
        let d = disks.last();
        if share_above(d.used(), d.total_bytes as nat, u, t) {
            (d.used(), d.total_bytes as nat)
        } else {
            (u, t)
        }
    }
}

/// The product of two counts, exactly.
fn product(a: u64, b: u64) -> (r: u128)
    ensures
        r == a * b,
{
    proof {
        assert(a * b <= 0xffff_ffff_ffff_ffff * 0xffff_ffff_ffff_ffff) by (nonlinear_arith)
            requires
                a <= 0xffff_ffff_ffff_ffff,
                b <= 0xffff_ffff_ffff_ffff,
        ;
    }
    (a as u128) * (b as u128)
}

/// The fullest disk's space in use and total.
fn fullest(disks: &Vec<DiskSnapshot>) -> (r: (u64, u64))
    ensures
        (r.0 as nat, r.1 as nat) == fullest_disk(disks@),
{
    let mut used: u64 = 0;
    let mut total: u64 = 0;
    let mut i: usize = 0;
    while i < disks.len()
        invariant
            i <= disks@.len(),
            (used as nat, total as nat) == fullest_disk(disks@.take(i as int)),
        decreases disks@.len() - i,
    {
        let d = &disks[i];
        let u = d.used_bytes();
        let t = d.total_bytes;
        let above = t > 0 && if total == 0 {
            u > 0
        } else {
            product(u, total) > product(used, t)
        };
        assert(disks@.take(i + 1).drop_last() =~= disks@.take(i as int));
        if above {
            used = u;
            total = t;
        }
        i = i + 1;
    }
    assert(disks@.take(i as int) =~= disks@);
    (used, total)
}

/// The three gauges of the overview: CPU, memory, and the fullest disk.
pub open spec fn gauges_of(r: Seq<Gauge>, s: crate::model::SystemSnapshot) -> bool {
    &&& r.len() == 3
    &&& gauge_of(r[0], "CPU"@, s.cpu_usage_hundredths as nat, 10000)
    &&& gauge_of(r[1], "MEM"@, s.memory_used_bytes as nat, s.memory_total_bytes as nat)
    &&& gauge_of(r[2], "DISK"@, fullest_disk(s.disks@).0, fullest_disk(s.disks@).1)
}

/// The three gauges of the overview.
pub fn resource_gauges(s: &crate::model::SystemSnapshot) -> (r: Vec<Gauge>)
    ensures
        gauges_of(r@, *s),
{
    let (du, dt) = fullest(&s.disks);
    let r = vec![
        gauge("CPU", s.cpu_usage_hundredths as u64, 10000),
        gauge("MEM", s.memory_used_bytes, s.memory_total_bytes),
        gauge("DISK", du, dt),
    ];
    r
}

/// The chart series of the overview: CPU, memory, and network traffic (received plus sent,
/// capped at the largest `u64`).
pub open spec fn series_of(
    h: Seq<crate::app::HistoryPoint>,
    cpu: Seq<u64>,
    memory: Seq<u64>,
    network: Seq<u64>,
) -> bool {
    &&& cpu.len() == h.len()
    &&& memory.len() == h.len()
    &&& network.len() == h.len()
    &&& forall|i: int|
        0 <= i < h.len() ==> {
            &&& #[trigger] cpu[i] == h[i].cpu
            &&& memory[i] == h[i].memory
            &&& network[i] == if h[i].network_rx + h[i].network_tx <= u64::MAX {
                (h[i].network_rx + h[i].network_tx) as u64
            } else {
                u64::MAX
            }
        }
}

/// The chart series of the overview.
#[verifier::spinoff_prover]
pub fn history_series(app: &App) -> (r: (Vec<u64>, Vec<u64>, Vec<u64>))
    ensures
        series_of(app.history@, r.0@, r.1@, r.2@),
{
    let mut cpu: Vec<u64> = Vec::new();
    let mut memory: Vec<u64> = Vec::new();
    let mut network: Vec<u64> = Vec::new();
    let mut i: usize = 0;
    while i < app.history.len()
        invariant
            i <= app.history@.len(),
            series_of(app.history@.take(i as int), cpu@, memory@, network@),
        decreases app.history@.len() - i,
    {
        let p = &app.history[i];
        let ghost c0 = cpu@;
        let ghost m0 = memory@;
        let ghost n0 = network@;
        let ghost before = app.history@.take(i as int);
        cpu.push(p.cpu);
        memory.push(p.memory);
        network.push(p.network_rx.saturating_add(p.network_tx));
        let ghost h = app.history@.take(i + 1);
        assert forall|k: int| 0 <= k < h.len() implies {
            &&& #[trigger] cpu@[k] == h[k].cpu
            &&& memory@[k] == h[k].memory
            &&& network@[k] == if h[k].network_rx + h[k].network_tx <= u64::MAX {
                (h[k].network_rx + h[k].network_tx) as u64
            } else {
                u64::MAX
            }
        } by {
            if k < i {
                assert(h[k] == before[k]);
                assert(c0[k] == before[k].cpu);
            } else {
                assert(h[k] == app.history@[i as int]);
            }
        }
        assert(series_of(h, cpu@, memory@, network@));
        i = i + 1;
    }
    assert(app.history@.take(i as int) =~= app.history@);
    (cpu, memory, network)
}

} // verus!
