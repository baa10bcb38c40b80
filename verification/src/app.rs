//! The state of the terminal interface: the current view, selections, search, buffered
//! history and logs, and the warnings derived from them.

use std::collections::VecDeque;

use vstd::prelude::*;

use crate::action::{key_action, Action, Key, KeyCode};
use crate::config::AppConfig;
use crate::format::{round_div, rounded_quotient};
use crate::logs::LogBatch;
use crate::model::{
    HealthState, LogEntry, LogSourceStatus, NetworkSnapshot, ProcessSnapshot, ServiceStatus,
    SocketSnapshot, SystemSnapshot,
};
use crate::seqs::{derefs, lemma_derefs_push, lemma_filter_all, lemma_filter_step, lemma_take_all};
use crate::text::{
    chars_of, contains_chars, decimal, decimal_string, decimal_string_wide, has_part, lowercase,
    join2, join3, occurs_at, lemma_texts_append, lemma_texts_push, pop_char, push_char, texts, to_lowercase,
};
use crate::model::DiskSnapshot;

verus! {

/// The views of the interface, in the order the tab bar shows them.
#[derive(Clone, Copy, Debug, PartialEq, Eq, Structural)]
pub enum Tab {
    Overview,
    Processes,
    Services,
    Logs,
    Network,
    Ports,
    Disks,
}

/// The number of views.
pub const TAB_COUNT: usize = 7;

impl Tab {
    /// The position of this view in the tab bar.
    pub open spec fn position(self) -> nat {
        match self {
            Tab::Overview => 0,
            Tab::Processes => 1,
            Tab::Services => 2,
            Tab::Logs => 3,
            Tab::Network => 4,
            Tab::Ports => 5,
            Tab::Disks => 6,
        }
    }

    /// The view at position `i` of the tab bar.
    pub open spec fn at_position(i: nat) -> Tab {
        if i == 0 {
            Tab::Overview
        } else if i == 1 {
            Tab::Processes
        } else if i == 2 {
            Tab::Services
        } else if i == 3 {
            Tab::Logs
        } else if i == 4 {
            Tab::Network
        } else if i == 5 {
            Tab::Ports
        } else {
            Tab::Disks
        }
    }

    /// The view after this one, wrapping from the last to the first.
    pub open spec fn following(self) -> Tab {
        Tab::at_position((self.position() + 1) % 7)
    }

    /// The view before this one, wrapping from the first to the last.
    pub open spec fn preceding(self) -> Tab {
        if self.position() == 0 {
            Tab::Disks
        } else {
            Tab::at_position((self.position() - 1) as nat)
        }
    }

    /// The title shown in the tab bar.
    pub open spec fn title_text(self) -> Seq<char> {
        match self {
            Tab::Overview => "Overview"@,
            Tab::Processes => "Processes"@,
            Tab::Services => "Services"@,
            Tab::Logs => "Logs"@,
            Tab::Network => "Network"@,
            Tab::Ports => "Ports"@,
            Tab::Disks => "Disks"@,
        }
    }

    /// All views, in tab-bar order.
    pub fn all() -> (r: Vec<Tab>)
        ensures
            r@.len() == 7,
            forall|i: int| 0 <= i < 7 ==> r@[i] == Tab::at_position(i as nat),
    {
        vec![
            Tab::Overview,
            Tab::Processes,
            Tab::Services,
            Tab::Logs,
            Tab::Network,
            Tab::Ports,
            Tab::Disks,
        ]
    }

    /// The title shown in the tab bar.
    pub fn title(self) -> (r: &'static str)
        ensures
            r@ == self.title_text(),
    {
        match self {
            Tab::Overview => "Overview",
            Tab::Processes => "Processes",
            Tab::Services => "Services",
            Tab::Logs => "Logs",
            Tab::Network => "Network",
            Tab::Ports => "Ports",
            Tab::Disks => "Disks",
        }
    }

    /// The position of this view in the tab bar.
    pub fn index(self) -> (r: usize)
        ensures
            r == self.position(),
            r < TAB_COUNT,
    {
        match self {
            Tab::Overview => 0,
            Tab::Processes => 1,
            Tab::Services => 2,
            Tab::Logs => 3,
            Tab::Network => 4,
            Tab::Ports => 5,
            Tab::Disks => 6,
        }
    }

    /// The view at position `i` of the tab bar.
    pub fn from_index(i: usize) -> (r: Tab)
        requires
            i < TAB_COUNT,
        ensures
            r == Tab::at_position(i as nat),
    {
        if i == 0 {
            Tab::Overview
        } else if i == 1 {
            Tab::Processes
        } else if i == 2 {
            Tab::Services
        } else if i == 3 {
            Tab::Logs
        } else if i == 4 {
            Tab::Network
        } else if i == 5 {
            Tab::Ports
        } else {
            Tab::Disks
        }
    }
}

/// Law: positions and views correspond one to one, and moving forward then back (or back
/// then forward) returns to the same view.
pub proof fn tab_navigation_round_trip(t: Tab)
    ensures
        Tab::at_position(t.position()) == t,
        t.position() < 7,
        t.following().preceding() == t,
        t.preceding().following() == t,
{
}

/// Law: moving forward through all seven views returns to the start.
pub proof fn tab_cycle_has_seven_views(t: Tab)
    ensures
        t.following().following().following().following().following().following().following()
            == t,
        t.following() != t,
{
}

/// Whether keys edit the search text or drive navigation.
#[derive(Clone, Copy, Debug, PartialEq, Eq, Structural)]
pub enum InputMode {
    Normal,
    Search,
}

/// One sample of the overview charts.
#[derive(Clone, Copy, Debug, PartialEq, Eq, Structural)]
pub struct HistoryPoint {
    /// CPU usage in whole percent, between 0 and 100.
    pub cpu: u64,
    /// Memory usage in whole percent.
    pub memory: u64,
    pub network_rx: u64,
    pub network_tx: u64,
}

/// The bytes received in this period over all interfaces.
pub open spec fn received_total(networks: Seq<NetworkSnapshot>) -> nat
    decreases networks.len(),
{
    if networks.len() == 0 {
        0
    } else {
        received_total(networks.drop_last()) + networks.last().received_bytes as nat
    }
}

/// The bytes transmitted in this period over all interfaces.
pub open spec fn transmitted_total(networks: Seq<NetworkSnapshot>) -> nat
    decreases networks.len(),
{
    if networks.len() == 0 {
        0
    } else {
        transmitted_total(networks.drop_last()) + networks.last().transmitted_bytes as nat
    }
}

/// The network totals of a snapshot fit in 64 bits, so summing them cannot overflow.
pub open spec fn network_totals_fit(snapshot: SystemSnapshot) -> bool {
    &&& received_total(snapshot.networks@) <= u64::MAX
    &&& transmitted_total(snapshot.networks@) <= u64::MAX
}

/// Memory use in whole percent, truncated, and saturating at the largest `u64`.
pub open spec fn memory_whole_percent(used: nat, total: nat) -> nat {
    if total == 0 {
        0
    } else if used * 100 / total > u64::MAX {
        u64::MAX as nat
    } else {
        used * 100 / total
    }
}

/// The chart sample for a snapshot.
pub open spec fn history_point(snapshot: SystemSnapshot) -> HistoryPoint {
    HistoryPoint {
        cpu: (if snapshot.cpu_usage_hundredths > 10000 {
            10000
        } else {
            snapshot.cpu_usage_hundredths
        } / 100) as u64,
        memory: memory_whole_percent(
            snapshot.memory_used_bytes as nat,
            snapshot.memory_total_bytes as nat,
        ) as u64,
        network_rx: received_total(snapshot.networks@) as u64,
        network_tx: transmitted_total(snapshot.networks@) as u64,
    }
}

/// The larger of `a` and `b`.
pub open spec fn at_least(a: nat, b: nat) -> nat {
    if a >= b {
        a
    } else {
        b
    }
}

/// `n - 1`, or zero for zero: the largest valid index of a list of `n` items (or zero).
pub open spec fn last_index(n: nat) -> nat {
    if n == 0 {
        0
    } else {
        (n - 1) as nat
    }
}

/// A selection moved back into a list of `len` rows: unchanged when valid, else the last row.
pub open spec fn clamped(selection: usize, len: nat) -> usize {
    if selection <= last_index(len) {
        selection
    } else {
        last_index(len) as usize
    }
}

/// `s` without its first `excess` items, keeping at most `capacity` of the newest ones.
pub open spec fn keep_newest<A>(s: Seq<A>, capacity: nat) -> Seq<A> {
    if s.len() > capacity {
        s.skip(s.len() - capacity)
    } else {
        s
    }
}

/// Whether a process matches a lower-case search text.
pub open spec fn process_matches(p: ProcessSnapshot, needle: Seq<char>) -> bool {
    ||| needle.len() == 0
    ||| has_part(lowercase(p.name@), needle)
    ||| has_part(lowercase(p.command@), needle)
    ||| has_part(decimal(p.pid as nat), needle)
}

/// The process filter for a lower-case search text.
pub open spec fn process_pred(needle: Seq<char>) -> spec_fn(ProcessSnapshot) -> bool {
    |p: ProcessSnapshot| process_matches(p, needle)
}

/// Whether a log entry matches a lower-case search text.
pub open spec fn log_matches(e: LogEntry, needle: Seq<char>) -> bool {
    ||| needle.len() == 0
    ||| has_part(lowercase(e.source@), needle)
    ||| has_part(lowercase(e.level.label_text()), needle)
    ||| has_part(lowercase(e.line@), needle)
}

/// The log filter for a lower-case search text.
pub open spec fn log_pred(needle: Seq<char>) -> spec_fn(LogEntry) -> bool {
    |e: LogEntry| log_matches(e, needle)
}

/// Whether one of the process names matches a lower-case search text.
pub open spec fn some_name_matches(names: Seq<String>, needle: Seq<char>) -> bool {
    exists|i: int| 0 <= i < names.len() && has_part(lowercase(#[trigger] names[i]@), needle)
}

/// Whether a socket matches a lower-case search text.
pub open spec fn socket_matches(s: SocketSnapshot, needle: Seq<char>) -> bool {
    ||| needle.len() == 0
    ||| has_part(lowercase(s.local_address@), needle)
    ||| has_part(decimal(s.local_port as nat), needle)
    ||| has_part(lowercase(s.state@), needle)
    ||| some_name_matches(s.process_names@, needle)
}

/// The socket filter for a lower-case search text.
pub open spec fn socket_pred(needle: Seq<char>) -> spec_fn(SocketSnapshot) -> bool {
    |s: SocketSnapshot| socket_matches(s, needle)
}

/// Usage `used` of `total` reaches a threshold in hundredths of a percent. An empty total is
/// zero percent.
pub open spec fn reaches(used: int, total: int, threshold: int) -> bool {
    if total == 0 {
        threshold <= 0
    } else {
        used * 10000 >= threshold * total
    }
}

/// `used` of `total` in whole percent, rounded to the nearest (an exact half to even). An
/// empty total is zero percent.
pub open spec fn rounded_percent(used: nat, total: nat) -> nat {
    if total == 0 {
        0
    } else {
        round_div(used * 100, total)
    }
}

/// The warning line for a disk.
pub open spec fn disk_warning(mount_point: Seq<char>, used: nat, total: nat) -> Seq<char> {
    "Disk "@ + mount_point + " "@ + decimal(rounded_percent(used, total)) + "%"@
}

/// The lower-cased characters of `s`.
fn lowered(s: &str) -> (r: Vec<char>)
    ensures
        r@ == lowercase(s@),
        (r@.len() == 0) == (s@.len() == 0),
{
    let l = to_lowercase(s);
    chars_of(l.as_str())
}

/// Whether a process matches the lower-case search text `needle`.
fn process_match(p: &ProcessSnapshot, needle: &Vec<char>) -> (r: bool)
    ensures
        r == process_matches(*p, needle@),
{
    needle.len() == 0 || contains_chars(&lowered(p.name.as_str()), needle) || contains_chars(
        &lowered(p.command.as_str()),
        needle,
    ) || contains_chars(&chars_of(decimal_string(p.pid as u64).as_str()), needle)
}

/// Whether a log entry matches the lower-case search text `needle`.
fn log_match(e: &LogEntry, needle: &Vec<char>) -> (r: bool)
    ensures
        r == log_matches(*e, needle@),
{
    needle.len() == 0 || contains_chars(&lowered(e.source.as_str()), needle) || contains_chars(
        &lowered(e.level.label()),
        needle,
    ) || contains_chars(&lowered(e.line.as_str()), needle)
}

/// Whether a socket matches the lower-case search text `needle`.
fn socket_match(s: &SocketSnapshot, needle: &Vec<char>) -> (r: bool)
    ensures
        r == socket_matches(*s, needle@),
{
    if needle.len() == 0 || contains_chars(&lowered(s.local_address.as_str()), needle)
        || contains_chars(&chars_of(decimal_string(s.local_port as u64).as_str()), needle)
        || contains_chars(&lowered(s.state.as_str()), needle) {
        return true;
    }
    let mut i: usize = 0;
    while i < s.process_names.len()
        invariant
            i <= s.process_names.len(),
            forall|k: int|
                0 <= k < i ==> !has_part(lowercase(#[trigger] s.process_names@[k]@), needle@),
        decreases s.process_names.len() - i,
    {
        if contains_chars(&lowered(s.process_names[i].as_str()), needle) {
            return true;
        }
        i = i + 1;
    }
    false
}


/// Drops the oldest items of `v` until at most `capacity` remain.
fn trim_oldest<T>(v: &mut VecDeque<T>, capacity: usize)
    ensures
        final(v)@ == keep_newest(old(v)@, capacity as nat),
{
    let ghost full = v@;
    assert(full.skip(0) =~= full);
    while v.len() > capacity
        invariant
            v@.len() <= full.len(),
            v@ == full.skip(full.len() - v@.len()),
            full.len() <= capacity ==> v@.len() == full.len(),
            full.len() > capacity ==> v@.len() >= capacity,
        decreases v.len(),
    {
        let _ = v.pop_front();
        assert(v@ =~= full.skip(full.len() - v@.len()));
    }
    assert(full.len() <= capacity ==> v@ =~= full);
    assert(full.len() > capacity ==> v@ =~= full.skip(full.len() - capacity));
}

proof fn lemma_network_prefix(s: Seq<NetworkSnapshot>, i: int)
    requires
        0 <= i <= s.len(),
    ensures
        received_total(s.take(i)) <= received_total(s),
        transmitted_total(s.take(i)) <= transmitted_total(s),
    decreases s.len() - i,
{
    if i == s.len() {
        assert(s.take(i) =~= s);
    } else {
        lemma_network_prefix(s, i + 1);
        assert(s.take(i + 1).drop_last() =~= s.take(i));
    }
}

/// Whether the network counters of a snapshot add up within `u64`, which taking the
/// snapshot needs.
pub fn totals_fit(snapshot: &SystemSnapshot) -> (r: bool)
    ensures
        r == network_totals_fit(*snapshot),
{
    let networks = &snapshot.networks;
    let mut rx: u128 = 0;
    let mut tx: u128 = 0;
    let mut i: usize = 0;
    while i < networks.len()
        invariant
            i <= networks@.len(),
            networks == &snapshot.networks,
            rx == received_total(networks@.take(i as int)),
            tx == transmitted_total(networks@.take(i as int)),
            rx <= u64::MAX,
            tx <= u64::MAX,
        decreases networks.len() - i,
    {
        proof {
            assert(networks@.take(i + 1).drop_last() =~= networks@.take(i as int));
        }
        rx = rx + networks[i].received_bytes as u128;
        tx = tx + networks[i].transmitted_bytes as u128;
        i = i + 1;
        if rx > u64::MAX as u128 || tx > u64::MAX as u128 {
            proof {
                lemma_network_prefix(networks@, i as int);
            }
            return false;
        }
    }
    proof {
        lemma_take_all(networks@);
    }
    true
}

/// The bytes received and transmitted over all interfaces.
fn network_totals(networks: &Vec<NetworkSnapshot>) -> (r: (u64, u64))
    requires
        received_total(networks@) <= u64::MAX,
        transmitted_total(networks@) <= u64::MAX,
    ensures
        r.0 == received_total(networks@),
        r.1 == transmitted_total(networks@),
{
    let mut rx: u64 = 0;
    let mut tx: u64 = 0;
    let mut i: usize = 0;
    while i < networks.len()
        invariant
            i <= networks@.len(),
            received_total(networks@) <= u64::MAX,
            transmitted_total(networks@) <= u64::MAX,
            rx == received_total(networks@.take(i as int)),
            tx == transmitted_total(networks@.take(i as int)),
        decreases networks.len() - i,
    {
        proof {
            lemma_network_prefix(networks@, i + 1);
            assert(networks@.take(i + 1).drop_last() =~= networks@.take(i as int));
        }
        rx = rx + networks[i].received_bytes;
        tx = tx + networks[i].transmitted_bytes;
        i = i + 1;
    }
    proof {
        lemma_take_all(networks@);
    }
    (rx, tx)
}

/// The chart sample for a snapshot.
fn sample_of(snapshot: &SystemSnapshot) -> (r: HistoryPoint)
    requires
        network_totals_fit(*snapshot),
    ensures
        r == history_point(*snapshot),
{
    let cpu_capped = if snapshot.cpu_usage_hundredths > 10000 {
        10000
    } else {
        snapshot.cpu_usage_hundredths
    };
    let used = snapshot.memory_used_bytes as u128;
    let total = snapshot.memory_total_bytes as u128;
    let memory: u64 = if total == 0 {
        0
    } else {
        let m = used * 100 / total;
        if m > u64::MAX as u128 {
            u64::MAX
        } else {
            m as u64
        }
    };
    let (rx, tx) = network_totals(&snapshot.networks);
    HistoryPoint { cpu: (cpu_capped / 100) as u64, memory, network_rx: rx, network_tx: tx }
}


/// Whether `used` of `total` reaches `threshold` hundredths of a percent.
fn reaches_threshold(used: u64, total: u64, threshold: i64) -> (r: bool)
    ensures
        r == reaches(used as int, total as int, threshold as int),
{
    if total == 0 {
        threshold <= 0
    } else {
        let u = used as i128;
        let t = total as i128;
        let h = threshold as i128;
        assert(0 <= u * 10000 <= 0x1_0000_0000_0000_0000 * 10000) by (nonlinear_arith)
            requires
                0 <= u < 0x1_0000_0000_0000_0000,
        ;
        assert(-0x8000_0000_0000_0000 * 0x1_0000_0000_0000_0000 <= h * t
            <= 0x7fff_ffff_ffff_ffff * 0xffff_ffff_ffff_ffff) by (nonlinear_arith)
            requires
                0 <= t <= 0xffff_ffff_ffff_ffff,
                -0x8000_0000_0000_0000 <= h <= 0x7fff_ffff_ffff_ffff,
        ;
        u * 10000 >= h * t
    }
}

/// `used` of `total` in whole percent, rounded to the nearest (an exact half to even).
fn rounded_percent_of(used: u64, total: u64) -> (r: u128)
    ensures
        r == rounded_percent(used as nat, total as nat),
{
    if total == 0 {
        0
    } else {
        let u = used as u128;
        let t = total as u128;
        assert(u * 100 <= 0x1_0000_0000_0000_0000 * 100) by (nonlinear_arith)
            requires
                u < 0x1_0000_0000_0000_0000,
        ;
        rounded_quotient(u * 100, t)
    }
}

/// The disk filter for a threshold.
pub open spec fn disk_pred(threshold: i64) -> spec_fn(DiskSnapshot) -> bool {
    |d: DiskSnapshot| reaches(d.used() as int, d.total_bytes as int, threshold as int)
}

/// The warning line of a disk.
pub open spec fn disk_line() -> spec_fn(DiskSnapshot) -> Seq<char> {
    |d: DiskSnapshot| disk_warning(d.mount_point@, d.used(), d.total_bytes as nat)
}

/// The warning lines of the disks that reach the threshold.
fn disk_warnings(disks: &Vec<DiskSnapshot>, threshold: i64) -> (r: Vec<String>)
    ensures
        texts(r@) == disks@.filter(disk_pred(threshold)).map_values(disk_line()),
{
    let ghost pred = disk_pred(threshold);
    let mut r: Vec<String> = Vec::new();
    let mut i: usize = 0;
    while i < disks.len()
        invariant
            i <= disks@.len(),
            pred == disk_pred(threshold),
            texts(r@) == disks@.take(i as int).filter(pred).map_values(disk_line()),
        decreases disks.len() - i,
    {
        let d = &disks[i];
        proof {
            lemma_filter_step(disks@, pred, i as int);
        }
        let used = d.used_bytes();
        if reaches_threshold(used, d.total_bytes, threshold) {
            let pct = decimal_string_wide(rounded_percent_of(used, d.total_bytes));
            let head = join3("Disk ", d.mount_point.as_str(), " ");
            let line = join3(head.as_str(), pct.as_str(), "%");
            proof {
                lemma_texts_push(r@, line);
                let f = disks@.take(i as int).filter(pred);
                assert(f.push(disks@[i as int]).map_values(disk_line()) =~= f.map_values(disk_line()).push(
                    disk_line()(disks@[i as int]),
                ));
            }
            r.push(line);
        }
        i = i + 1;
    }
    proof {
        lemma_take_all(disks@);
    }
    r
}

/// The number of failing service checks.
fn failing_services(services: &Vec<ServiceStatus>) -> (r: usize)
    ensures
        r == services@.filter(|v: ServiceStatus| v.state == HealthState::Unhealthy).len(),
{
    let ghost pred = |v: ServiceStatus| v.state == HealthState::Unhealthy;
    let mut n: usize = 0;
    let mut i: usize = 0;
    while i < services.len()
        invariant
            i <= services@.len(),
            pred == (|v: ServiceStatus| v.state == HealthState::Unhealthy),
            n == services@.take(i as int).filter(pred).len(),
            n <= i,
        decreases services.len() - i,
    {
        proof {
            lemma_filter_step(services@, pred, i as int);
        }
        if services[i].state == HealthState::Unhealthy {
            n = n + 1;
        }
        i = i + 1;
    }
    proof {
        lemma_take_all(services@);
    }
    n
}

/// The number of log sources that could not be read.
pub fn unavailable_sources(sources: &Vec<LogSourceStatus>) -> (r: usize)
    ensures
        r == sources@.filter(|l: LogSourceStatus| !l.available).len(),
{
    let ghost pred = |l: LogSourceStatus| !l.available;
    let mut n: usize = 0;
    let mut i: usize = 0;
    while i < sources.len()
        invariant
            i <= sources@.len(),
            pred == (|l: LogSourceStatus| !l.available),
            n == sources@.take(i as int).filter(pred).len(),
            n <= i,
        decreases sources.len() - i,
    {
        proof {
            lemma_filter_step(sources@, pred, i as int);
        }
        if !sources[i].available {
            n = n + 1;
        }
        i = i + 1;
    }
    proof {
        lemma_take_all(sources@);
    }
    n
}

/// The state of the interface.
pub struct App {
    pub running: bool,
    pub paused: bool,
    pub force_refresh: bool,
    pub tab: Tab,
    pub input_mode: InputMode,
    pub search: String,
    pub show_help: bool,
    pub show_details: bool,
    pub selected_process: usize,
    pub selected_service: usize,
    pub selected_log: usize,
    pub selected_network: usize,
    pub selected_socket: usize,
    pub selected_disk: usize,
    pub snapshot: SystemSnapshot,
    pub history: VecDeque<HistoryPoint>,
    pub config: AppConfig,
    pub config_path: Option<String>,
    pub logs: VecDeque<LogEntry>,
    pub log_sources: Vec<LogSourceStatus>,
    pub socket_error: Option<String>,
    pub message: Option<String>,
}

impl App {
    /// The search text, lower-cased, that filters the lists (nothing without a search).
    pub open spec fn needle(self) -> Seq<char> {
        if self.search@.len() == 0 {
            Seq::empty()
        } else {
            lowercase(self.search@)
        }
    }

    /// The processes that the current search shows, in snapshot order.
    pub open spec fn shown_processes(self) -> Seq<ProcessSnapshot> {
        self.snapshot.processes@.filter(process_pred(self.needle()))
    }

    /// The buffered log entries that the current search shows, oldest first.
    pub open spec fn shown_logs(self) -> Seq<LogEntry> {
        self.logs@.filter(log_pred(self.needle()))
    }

    /// The sockets that the current search shows, in snapshot order.
    pub open spec fn shown_sockets(self) -> Seq<SocketSnapshot> {
        self.snapshot.sockets@.filter(socket_pred(self.needle()))
    }

    /// The most history samples kept.
    pub open spec fn history_capacity(self) -> nat {
        at_least(self.config.history_points as nat, 10)
    }

    /// The most log entries kept.
    pub open spec fn log_capacity(self) -> nat {
        at_least(self.config.log_buffer_lines as nat, 100)
    }

    /// The number of rows in the current view's list.
    pub open spec fn rows(self) -> nat {
        match self.tab {
            Tab::Processes => self.shown_processes().len(),
            Tab::Services => self.snapshot.services@.len(),
            Tab::Logs => self.shown_logs().len(),
            Tab::Network => self.snapshot.networks@.len(),
            Tab::Ports => self.shown_sockets().len(),
            Tab::Disks => self.snapshot.disks@.len(),
            Tab::Overview => if self.snapshot.processes@.len() < 8 {
                self.snapshot.processes@.len()
            } else {
                8
            },
        }
    }

    /// The selection that the current view moves; the overview shares the process selection.
    pub open spec fn selection(self) -> usize {
        match self.tab {
            Tab::Processes | Tab::Overview => self.selected_process,
            Tab::Services => self.selected_service,
            Tab::Logs => self.selected_log,
            Tab::Network => self.selected_network,
            Tab::Ports => self.selected_socket,
            Tab::Disks => self.selected_disk,
        }
    }

    /// This state with the current view's selection set to `v`.
    pub open spec fn with_active_selection(self, v: usize) -> App {
        match self.tab {
            Tab::Processes | Tab::Overview => App { selected_process: v, ..self },
            Tab::Services => App { selected_service: v, ..self },
            Tab::Logs => App { selected_log: v, ..self },
            Tab::Network => App { selected_network: v, ..self },
            Tab::Ports => App { selected_socket: v, ..self },
            Tab::Disks => App { selected_disk: v, ..self },
        }
    }

    /// This state with overlays closed, the search cleared and normal input restored; the
    /// cleared search text is `search`.
    pub open spec fn without_transient_ui(self, search: String) -> App {
        App {
            show_help: false,
            show_details: false,
            input_mode: InputMode::Normal,
            search,
            ..self
        }
    }

    /// What `update_snapshot` does: `new` holds `snapshot` with the current service and
    /// socket results, no pending refresh, selections moved back into their lists and one
    /// more chart sample, the oldest dropped beyond the capacity.
    pub open spec fn snapshot_taken(old: App, new: App, snapshot: SystemSnapshot) -> bool {
        &&& new.snapshot == (SystemSnapshot {
            services: old.snapshot.services,
            sockets: old.snapshot.sockets,
            ..snapshot
        })
        &&& new.selected_process == clamped(old.selected_process, new.shown_processes().len())
        &&& new.selected_network == clamped(old.selected_network, snapshot.networks@.len())
        &&& new.selected_socket == clamped(old.selected_socket, new.shown_sockets().len())
        &&& new.selected_disk == clamped(old.selected_disk, snapshot.disks@.len())
        &&& new.history@ == keep_newest(
            old.history@.push(history_point(snapshot)),
            old.history_capacity(),
        )
        &&& new == (App {
            snapshot: new.snapshot,
            force_refresh: false,
            selected_process: new.selected_process,
            selected_network: new.selected_network,
            selected_socket: new.selected_socket,
            selected_disk: new.selected_disk,
            history: new.history,
            ..old
        })
    }

    /// What `update_services` does: `new` holds `services`, with the service selection moved
    /// back into the list.
    pub open spec fn services_taken(old: App, new: App, services: Vec<ServiceStatus>) -> bool {
        new == (App {
            snapshot: SystemSnapshot { services, ..old.snapshot },
            selected_service: clamped(old.selected_service, services@.len()),
            ..old
        })
    }

    /// What `update_sockets` does: a listing replaces the previous one and clears the socket
    /// error; a failure is recorded and the previous listing kept.
    pub open spec fn sockets_taken(
        old: App,
        new: App,
        sockets: Result<Vec<SocketSnapshot>, String>,
    ) -> bool {
        match sockets {
            Ok(list) => new == (App {
                snapshot: SystemSnapshot { sockets: list, ..old.snapshot },
                socket_error: None,
                selected_socket: clamped(old.selected_socket, list@.len()),
                ..old
            }),
            Err(error) => new == (App { socket_error: Some(error), ..old }),
        }
    }

    /// What `update_logs` does: the batch is appended, the oldest lines dropped beyond the
    /// capacity, and the source states replaced. A selection on the last shown line (or on an
    /// empty buffer) follows the newest line; any other stays, moved back into the list.
    pub open spec fn logs_taken(old: App, new: App, batch: LogBatch) -> bool {
        &&& new.logs@ == keep_newest(old.logs@ + batch.entries@, old.log_capacity())
        &&& new.selected_log == (if old.logs@.len() == 0 || old.selected_log + 1
            >= old.shown_logs().len() {
            last_index(new.shown_logs().len()) as usize
        } else {
            clamped(old.selected_log, new.shown_logs().len())
        })
        &&& new == (App {
            logs: new.logs,
            log_sources: batch.sources,
            selected_log: new.selected_log,
            ..old
        })
    }

    /// What `apply` does: `new` is the state after `action` on `old`.
    pub open spec fn applied(old: App, new: App, action: Action) -> bool {
        match action {
            Action::Quit => new == App { running: false, ..old },
            Action::NextTab => {
                &&& new.search@.len() == 0
                &&& new == (App { tab: old.tab.following(), ..old }).without_transient_ui(
                    new.search,
                )
            },
            Action::PreviousTab => {
                &&& new.search@.len() == 0
                &&& new == (App { tab: old.tab.preceding(), ..old }).without_transient_ui(
                    new.search,
                )
            },
            Action::MoveUp => new == old.with_active_selection(
                if old.selection() == 0 {
                    0
                } else {
                    (old.selection() - 1) as usize
                },
            ),
            Action::MoveDown => new == old.with_active_selection(
                if old.selection() + 1 <= last_index(old.rows()) {
                    (old.selection() + 1) as usize
                } else {
                    last_index(old.rows()) as usize
                },
            ),
            Action::First => new == old.with_active_selection(0),
            Action::Last => new == old.with_active_selection(last_index(old.rows()) as usize),
            Action::TogglePause => {
                &&& new.message is Some
                &&& new.message->0@ == (if old.paused {
                    "Live updates resumed"@
                } else {
                    "Live updates paused"@
                })
                &&& new == App { paused: !old.paused, message: new.message, ..old }
            },
            Action::Refresh => new == App { force_refresh: true, ..old },
            Action::ToggleHelp => new == App {
                show_help: !old.show_help,
                show_details: false,
                ..old
            },
            Action::CloseOverlay => new == App {
                show_help: false,
                show_details: false,
                message: None,
                ..old
            },
            Action::OpenDetails => new == App {
                show_details: old.tab == Tab::Processes || old.tab == Tab::Services || old.tab
                    == Tab::Logs || old.tab == Tab::Ports,
                ..old
            },
            Action::StartSearch => {
                &&& new.search@.len() == 0
                &&& new == (App {
                    input_mode: InputMode::Search,
                    search: new.search,
                    ..old
                }).with_active_selection(0)
            },
            Action::Filter => new == App { input_mode: InputMode::Search, ..old },
            Action::FinishSearch => new == App { input_mode: InputMode::Normal, ..old },
            Action::ClearSearch => {
                &&& new.search@.len() == 0
                &&& new == (App {
                    input_mode: InputMode::Normal,
                    search: new.search,
                    ..old
                }).with_active_selection(0)
            },
            Action::SearchChar(c) => {
                &&& new.search@ == old.search@.push(c)
                &&& new == (App { search: new.search, ..old }).with_active_selection(0)
            },
            Action::SearchBackspace => {
                &&& new.search@ == (if old.search@.len() == 0 {
                    old.search@
                } else {
                    old.search@.drop_last()
                })
                &&& new == (App { search: new.search, ..old }).with_active_selection(0)
            },
            Action::ExportReport | Action::NoOp => new == old,
        }
    }

    /// The warning lines for the current state, in display order: CPU, memory, each disk,
    /// failing services, unavailable log sources, port collection.
    pub open spec fn warning_lines(self) -> Seq<Seq<char>> {
        let s = self.snapshot;
        let t = self.config.thresholds;
        let cpu: Seq<Seq<char>> = if s.cpu_usage_hundredths >= t.cpu_percent {
            seq!["CPU "@ + decimal(round_div(s.cpu_usage_hundredths as nat, 100)) + "%"@]
        } else {
            seq![]
        };
        let memory: Seq<Seq<char>> = if reaches(
            s.memory_used_bytes as int,
            s.memory_total_bytes as int,
            t.memory_percent as int,
        ) {
            seq![
                "Memory "@ + decimal(
                    rounded_percent(s.memory_used_bytes as nat, s.memory_total_bytes as nat),
                ) + "%"@,
            ]
        } else {
            seq![]
        };
        let disks = s.disks@.filter(disk_pred(t.disk_percent)).map_values(disk_line());
        let failed = s.services@.filter(
            |v: ServiceStatus| v.state == HealthState::Unhealthy,
        ).len();
        let services: Seq<Seq<char>> = if failed > 0 {
            seq![decimal(failed) + " service check(s) failing"@]
        } else {
            seq![]
        };
        let unavailable = self.log_sources@.filter(|l: LogSourceStatus| !l.available).len();
        let logs: Seq<Seq<char>> = if unavailable > 0 {
            seq![decimal(unavailable) + " log source(s) unavailable"@]
        } else {
            seq![]
        };
        let ports: Seq<Seq<char>> = if self.socket_error is Some {
            seq!["Port collection unavailable"@]
        } else {
            seq![]
        };
        cpu + memory + disks + services + logs + ports
    }
}

/// Law: typing a character into the search and deleting it again gives back the search
/// text that was there before.
pub proof fn search_edit_round_trip(before: App, typed: App, after: App, c: char)
    requires
        App::applied(before, typed, Action::SearchChar(c)),
        App::applied(typed, after, Action::SearchBackspace),
    ensures
        after.search@ == before.search@,
        after.input_mode == before.input_mode,
        after.tab == before.tab,
{
    assert(typed.search@.drop_last() =~= before.search@);
    assert(typed.input_mode == before.input_mode && typed.tab == before.tab) by {
        match before.tab {
            Tab::Processes | Tab::Overview => {},
            _ => {},
        }
    }
    assert(after.input_mode == typed.input_mode && after.tab == typed.tab) by {
        match typed.tab {
            Tab::Processes | Tab::Overview => {},
            _ => {},
        }
    }
}

/// Law: pausing twice leaves live updates as they were, and each toggle says which way it
/// went.
pub proof fn pause_toggle_round_trip(before: App, once: App, twice: App)
    requires
        App::applied(before, once, Action::TogglePause),
        App::applied(once, twice, Action::TogglePause),
    ensures
        twice.paused == before.paused,
        once.paused != before.paused,
        twice == (App { message: twice.message, ..before }),
{
}

/// Law: without a search every list shows all of its items, in order.
pub proof fn no_search_shows_everything(app: App)
    requires
        app.search@.len() == 0,
    ensures
        app.shown_processes() == app.snapshot.processes@,
        app.shown_logs() == app.logs@,
        app.shown_sockets() == app.snapshot.sockets@,
{
    lemma_filter_all(app.snapshot.processes@, process_pred(app.needle()));
    lemma_filter_all(app.logs@, log_pred(app.needle()));
    lemma_filter_all(app.snapshot.sockets@, socket_pred(app.needle()));
}

/// Law: every item a list shows matches the search, and an item that matches is shown.
pub proof fn shown_items_match_the_search(app: App)
    ensures
        forall|i: int|
            0 <= i < app.shown_processes().len() ==> process_matches(
                #[trigger] app.shown_processes()[i],
                app.needle(),
            ),
        forall|i: int|
            0 <= i < app.snapshot.processes@.len() && process_matches(
                app.snapshot.processes@[i],
                app.needle(),
            ) ==> #[trigger] app.shown_processes().contains(app.snapshot.processes@[i]),
        forall|i: int|
            0 <= i < app.shown_logs().len() ==> log_matches(#[trigger] app.shown_logs()[i], app.needle()),
        forall|i: int|
            0 <= i < app.logs@.len() && log_matches(app.logs@[i], app.needle())
                ==> #[trigger] app.shown_logs().contains(app.logs@[i]),
        forall|i: int|
            0 <= i < app.shown_sockets().len() ==> socket_matches(
                #[trigger] app.shown_sockets()[i],
                app.needle(),
            ),
        forall|i: int|
            0 <= i < app.snapshot.sockets@.len() && socket_matches(
                app.snapshot.sockets@[i],
                app.needle(),
            ) ==> #[trigger] app.shown_sockets().contains(app.snapshot.sockets@[i]),
{
    broadcast use vstd::seq_lib::group_filter_ensures;

    assert forall|i: int|
        0 <= i < app.shown_processes().len() implies process_matches(
        #[trigger] app.shown_processes()[i],
        app.needle(),
    ) by {
        assert(process_pred(app.needle())(app.shown_processes()[i]));
    }
    assert forall|i: int|
        0 <= i < app.snapshot.processes@.len() && process_matches(
            app.snapshot.processes@[i],
            app.needle(),
        ) implies #[trigger] app.shown_processes().contains(app.snapshot.processes@[i]) by {
        assert(process_pred(app.needle())(app.snapshot.processes@[i]));
    }
    assert forall|i: int|
        0 <= i < app.shown_logs().len() implies log_matches(
        #[trigger] app.shown_logs()[i],
        app.needle(),
    ) by {
        assert(log_pred(app.needle())(app.shown_logs()[i]));
    }
    assert forall|i: int|
        0 <= i < app.logs@.len() && log_matches(app.logs@[i], app.needle()) implies #[trigger] app.shown_logs().contains(
        app.logs@[i],
    ) by {
        assert(log_pred(app.needle())(app.logs@[i]));
    }
    assert forall|i: int|
        0 <= i < app.shown_sockets().len() implies socket_matches(
        #[trigger] app.shown_sockets()[i],
        app.needle(),
    ) by {
        assert(socket_pred(app.needle())(app.shown_sockets()[i]));
    }
    assert forall|i: int|
        0 <= i < app.snapshot.sockets@.len() && socket_matches(
            app.snapshot.sockets@[i],
            app.needle(),
        ) implies #[trigger] app.shown_sockets().contains(app.snapshot.sockets@[i]) by {
        assert(socket_pred(app.needle())(app.snapshot.sockets@[i]));
    }
}

/// Law: moving the selection (up, down, to the first or the last row) keeps it on a row of
/// the current list, when it was on one or the list is empty; nothing but the selection
/// changes.
pub proof fn moving_keeps_the_selection_in_the_list(old: App, new: App, action: Action)
    requires
        action == Action::MoveUp || action == Action::MoveDown || action == Action::First
            || action == Action::Last,
        old.selection() <= last_index(old.rows()),
        App::applied(old, new, action),
    ensures
        new.rows() == old.rows(),
        new.selection() <= last_index(new.rows()),
        new == old.with_active_selection(new.selection()),
{
    let v = new.selection();
    assert(new.rows() == old.rows() && new == old.with_active_selection(v)) by {
        match old.tab {
            Tab::Processes | Tab::Overview => {},
            _ => {},
        }
    }
}

impl App {
    /// The processes that the current search shows.
    pub fn visible_processes(&self) -> (r: Vec<&ProcessSnapshot>)
        ensures
            derefs(r@) == self.shown_processes(),
    {
        let needle = lowered(self.search.as_str());
        assert(needle@ =~= self.needle());
        let ghost pred = process_pred(needle@);
        let ghost all = self.snapshot.processes@;
        let mut r: Vec<&ProcessSnapshot> = Vec::new();
        let mut i: usize = 0;
        while i < self.snapshot.processes.len()
            invariant
                i <= all.len(),
                all == self.snapshot.processes@,
                needle@ == self.needle(),
                pred == process_pred(needle@),
                derefs(r@) == all.take(i as int).filter(pred),
            decreases all.len() - i,
        {
            let p = &self.snapshot.processes[i];
            proof {
                lemma_filter_step(all, pred, i as int);
                assert(*p == all[i as int]);
            }
            let keep = process_match(p, &needle);
            assert(keep == pred(all[i as int]));
            if keep {
                proof {
                    lemma_derefs_push(r@, p);
                }
                r.push(p);
            }
            i = i + 1;
        }
        proof {
            lemma_take_all(all);
        }
        r
    }

    /// The buffered log entries that the current search shows.
    pub fn visible_logs(&self) -> (r: Vec<&LogEntry>)
        ensures
            derefs(r@) == self.shown_logs(),
    {
        let needle = lowered(self.search.as_str());
        assert(needle@ =~= self.needle());
        let ghost pred = log_pred(needle@);
        let ghost all = self.logs@;
        let mut r: Vec<&LogEntry> = Vec::new();
        let mut i: usize = 0;
        while i < self.logs.len()
            invariant
                i <= all.len(),
                all == self.logs@,
                needle@ == self.needle(),
                pred == log_pred(needle@),
                derefs(r@) == all.take(i as int).filter(pred),
            decreases all.len() - i,
        {
            let e = &self.logs[i];
            proof {
                lemma_filter_step(all, pred, i as int);
                assert(*e == all[i as int]);
            }
            let keep = log_match(e, &needle);
            assert(keep == pred(all[i as int]));
            if keep {
                proof {
                    lemma_derefs_push(r@, e);
                }
                r.push(e);
            }
            i = i + 1;
        }
        proof {
            lemma_take_all(all);
        }
        r
    }

    /// The sockets that the current search shows.
    pub fn visible_sockets(&self) -> (r: Vec<&SocketSnapshot>)
        ensures
            derefs(r@) == self.shown_sockets(),
    {
        let needle = lowered(self.search.as_str());
        assert(needle@ =~= self.needle());
        let ghost pred = socket_pred(needle@);
        let ghost all = self.snapshot.sockets@;
        let mut r: Vec<&SocketSnapshot> = Vec::new();
        let mut i: usize = 0;
        while i < self.snapshot.sockets.len()
            invariant
                i <= all.len(),
                all == self.snapshot.sockets@,
                needle@ == self.needle(),
                pred == socket_pred(needle@),
                derefs(r@) == all.take(i as int).filter(pred),
            decreases all.len() - i,
        {
            let e = &self.snapshot.sockets[i];
            proof {
                lemma_filter_step(all, pred, i as int);
                assert(*e == all[i as int]);
            }
            let keep = socket_match(e, &needle);
            assert(keep == pred(all[i as int]));
            if keep {
                proof {
                    lemma_derefs_push(r@, e);
                }
                r.push(e);
            }
            i = i + 1;
        }
        proof {
            lemma_take_all(all);
        }
        r
    }

    /// The selected process among those shown, if the selection points at one.
    pub fn selected_process(&self) -> (r: Option<&ProcessSnapshot>)
        ensures
            r is Some <==> self.selected_process < self.shown_processes().len(),
            r is Some ==> *r->0 == self.shown_processes()[self.selected_process as int],
    {
        let shown = self.visible_processes();
        assert(derefs(shown@).len() == shown@.len());
        if self.selected_process < shown.len() {
            assert(derefs(shown@)[self.selected_process as int] == *shown@[self.selected_process as int]);
            Some(shown[self.selected_process])
        } else {
            None
        }
    }

    /// The selected service, if the selection points at one.
    pub fn selected_service(&self) -> (r: Option<&ServiceStatus>)
        ensures
            r is Some <==> self.selected_service < self.snapshot.services@.len(),
            r is Some ==> *r->0 == self.snapshot.services@[self.selected_service as int],
    {
        if self.selected_service < self.snapshot.services.len() {
            Some(&self.snapshot.services[self.selected_service])
        } else {
            None
        }
    }

    /// The selected log entry among those shown, if the selection points at one.
    pub fn selected_log(&self) -> (r: Option<&LogEntry>)
        ensures
            r is Some <==> self.selected_log < self.shown_logs().len(),
            r is Some ==> *r->0 == self.shown_logs()[self.selected_log as int],
    {
        let shown = self.visible_logs();
        assert(derefs(shown@).len() == shown@.len());
        if self.selected_log < shown.len() {
            assert(derefs(shown@)[self.selected_log as int] == *shown@[self.selected_log as int]);
            Some(shown[self.selected_log])
        } else {
            None
        }
    }

    /// The selected socket among those shown, if the selection points at one.
    pub fn selected_socket(&self) -> (r: Option<&SocketSnapshot>)
        ensures
            r is Some <==> self.selected_socket < self.shown_sockets().len(),
            r is Some ==> *r->0 == self.shown_sockets()[self.selected_socket as int],
    {
        let shown = self.visible_sockets();
        assert(derefs(shown@).len() == shown@.len());
        if self.selected_socket < shown.len() {
            assert(derefs(shown@)[self.selected_socket as int] == *shown@[self.selected_socket as int]);
            Some(shown[self.selected_socket])
        } else {
            None
        }
    }

    /// The number of rows in the current view's list.
    fn active_len(&self) -> (r: usize)
        ensures
            r == self.rows(),
    {
        match self.tab {
            Tab::Processes => {
                let v = self.visible_processes();
                assert(derefs(v@).len() == v@.len());
                v.len()
            },
            Tab::Services => self.snapshot.services.len(),
            Tab::Logs => {
                let v = self.visible_logs();
                assert(derefs(v@).len() == v@.len());
                v.len()
            },
            Tab::Network => self.snapshot.networks.len(),
            Tab::Ports => {
                let v = self.visible_sockets();
                assert(derefs(v@).len() == v@.len());
                v.len()
            },
            Tab::Disks => self.snapshot.disks.len(),
            Tab::Overview => if self.snapshot.processes.len() < 8 {
                self.snapshot.processes.len()
            } else {
                8
            },
        }
    }

    /// The selection that the current view moves.
    pub fn active_selection(&self) -> (r: usize)
        ensures
            r == self.selection(),
    {
        match self.tab {
            Tab::Processes | Tab::Overview => self.selected_process,
            Tab::Services => self.selected_service,
            Tab::Logs => self.selected_log,
            Tab::Network => self.selected_network,
            Tab::Ports => self.selected_socket,
            Tab::Disks => self.selected_disk,
        }
    }

    /// Sets the selection that the current view moves.
    fn set_active_selection(&mut self, v: usize)
        ensures
            *final(self) == old(self).with_active_selection(v),
    {
        match self.tab {
            Tab::Processes | Tab::Overview => self.selected_process = v,
            Tab::Services => self.selected_service = v,
            Tab::Logs => self.selected_log = v,
            Tab::Network => self.selected_network = v,
            Tab::Ports => self.selected_socket = v,
            Tab::Disks => self.selected_disk = v,
        }
    }

    fn next_tab(&mut self)
        ensures
            final(self).search@.len() == 0,
            *final(self) == (App { tab: old(self).tab.following(), ..*old(self) }).without_transient_ui(
                final(self).search,
            ),
    {
        let index = (self.tab.index() + 1) % TAB_COUNT;
        self.tab = Tab::from_index(index);
        self.close_transient_ui();
    }

    fn previous_tab(&mut self)
        ensures
            final(self).search@.len() == 0,
            *final(self) == (App { tab: old(self).tab.preceding(), ..*old(self) }).without_transient_ui(
                final(self).search,
            ),
    {
        let current = self.tab.index();
        let index = if current == 0 {
            TAB_COUNT - 1
        } else {
            current - 1
        };
        self.tab = Tab::from_index(index);
        self.close_transient_ui();
    }

    fn move_up(&mut self)
        ensures
            *final(self) == old(self).with_active_selection(
                if old(self).selection() == 0 {
                    0
                } else {
                    (old(self).selection() - 1) as usize
                },
            ),
    {
        let selection = self.active_selection();
        self.set_active_selection(selection.saturating_sub(1));
    }

    fn move_down(&mut self)
        requires
            old(self).selection() < usize::MAX,
        ensures
            *final(self) == old(self).with_active_selection(
                if old(self).selection() + 1 <= last_index(old(self).rows()) {
                    (old(self).selection() + 1) as usize
                } else {
                    last_index(old(self).rows()) as usize
                },
            ),
    {
        let maximum = self.active_len().saturating_sub(1);
        let selection = self.active_selection();
        let next = if selection + 1 <= maximum {
            selection + 1
        } else {
            maximum
        };
        self.set_active_selection(next);
    }

    fn select_first(&mut self)
        ensures
            *final(self) == old(self).with_active_selection(0),
    {
        self.set_active_selection(0);
    }

    fn select_last(&mut self)
        ensures
            *final(self) == old(self).with_active_selection(last_index(old(self).rows()) as usize),
    {
        let maximum = self.active_len().saturating_sub(1);
        self.set_active_selection(maximum);
    }

    fn close_transient_ui(&mut self)
        ensures
            final(self).search@.len() == 0,
            *final(self) == old(self).without_transient_ui(final(self).search),
    {
        self.show_help = false;
        self.show_details = false;
        self.input_mode = InputMode::Normal;
        self.search = String::new();
    }

    /// The interface state for a first snapshot: running, live, on `initial_tab`, with no
    /// search, no selection moved, no buffered logs, and one chart sample.
    pub fn new(
        snapshot: SystemSnapshot,
        config: AppConfig,
        config_path: Option<String>,
        initial_tab: Tab,
    ) -> (r: App)
        requires
            network_totals_fit(snapshot),
        ensures
            r.running,
            !r.paused,
            !r.force_refresh,
            r.tab == initial_tab,
            r.input_mode == InputMode::Normal,
            r.search@.len() == 0,
            !r.show_help,
            !r.show_details,
            r.selected_process == 0,
            r.selected_service == 0,
            r.selected_log == 0,
            r.selected_network == 0,
            r.selected_socket == 0,
            r.selected_disk == 0,
            r.snapshot == snapshot,
            r.history@ == seq![history_point(snapshot)],
            r.config == config,
            r.config_path == config_path,
            r.logs@.len() == 0,
            r.log_sources@.len() == 0,
            r.socket_error is None,
            r.message is None,
    {
        let mut app = App {
            running: true,
            paused: false,
            force_refresh: false,
            tab: initial_tab,
            input_mode: InputMode::Normal,
            search: String::new(),
            show_help: false,
            show_details: false,
            selected_process: 0,
            selected_service: 0,
            selected_log: 0,
            selected_network: 0,
            selected_socket: 0,
            selected_disk: 0,
            snapshot,
            history: VecDeque::new(),
            config,
            config_path,
            logs: VecDeque::new(),
            log_sources: Vec::new(),
            socket_error: None,
            message: None,
        };
        app.record_history();
        assert(app.history@ =~= seq![history_point(snapshot)]);
        app
    }

    /// Takes a new system snapshot, keeping the current service and socket results; clears a
    /// pending refresh, moves selections back into their lists and adds a chart sample.
    pub fn update_snapshot(&mut self, snapshot: SystemSnapshot)
        requires
            network_totals_fit(snapshot),
        ensures
            App::snapshot_taken(*old(self), *final(self), snapshot),
            final(self).history@.len() <= final(self).history_capacity(),
    {
        let mut snapshot = snapshot;
        std::mem::swap(&mut snapshot.services, &mut self.snapshot.services);
        std::mem::swap(&mut snapshot.sockets, &mut self.snapshot.sockets);
        self.snapshot = snapshot;
        self.force_refresh = false;
        self.clamp_selections();
        self.record_history();
    }

    /// Takes new service check results and moves the service selection back into the list.
    pub fn update_services(&mut self, services: Vec<ServiceStatus>)
        ensures
            App::services_taken(*old(self), *final(self), services),
    {
        self.snapshot.services = services;
        let last = self.snapshot.services.len().saturating_sub(1);
        if self.selected_service > last {
            self.selected_service = last;
        }
    }

    /// Takes a new socket listing, or records why it could not be collected (keeping the
    /// previous listing).
    pub fn update_sockets(&mut self, sockets: Result<Vec<SocketSnapshot>, String>)
        ensures
            App::sockets_taken(*old(self), *final(self), sockets),
    {
        match sockets {
            Ok(sockets) => {
                self.snapshot.sockets = sockets;
                self.socket_error = None;
                let last = self.snapshot.sockets.len().saturating_sub(1);
                if self.selected_socket > last {
                    self.selected_socket = last;
                }
            },
            Err(error) => self.socket_error = Some(error),
        }
    }

    /// Appends a batch of log lines, keeping only the newest lines up to the capacity. If the
    /// selection was on the last shown line (or nothing was buffered), it follows the newest
    /// line; otherwise it stays, moved back into the list if needed.
    pub fn update_logs(&mut self, batch: LogBatch)
        ensures
            App::logs_taken(*old(self), *final(self), batch),
            final(self).logs@.len() <= final(self).log_capacity(),
    {
        let shown_before = self.visible_logs();
        assert(derefs(shown_before@).len() == shown_before@.len());
        let was_following = self.logs.len() == 0 || self.selected_log.saturating_add(1)
            >= shown_before.len();
        let capacity = if self.config.log_buffer_lines >= 100 {
            self.config.log_buffer_lines
        } else {
            100
        };
        let LogBatch { entries, sources } = batch;
        self.log_sources = sources;
        let mut combined: VecDeque<LogEntry> = VecDeque::new();
        std::mem::swap(&mut combined, &mut self.logs);
        let ghost before = combined@;
        let ghost added = entries@;
        for entry in it: entries.into_iter()
            invariant
                it.seq() == added,
                combined@ == before + added.take(it.index() as int),
        {
            combined.push_back(entry);
            assert(combined@ =~= before + added.take(it.index() + 1));
        }
        assert(added.take(added.len() as int) =~= added);
        trim_oldest(&mut combined, capacity);
        self.logs = combined;
        let shown_after = self.visible_logs();
        assert(derefs(shown_after@).len() == shown_after@.len());
        let last = shown_after.len().saturating_sub(1);
        self.selected_log = if was_following {
            last
        } else if self.selected_log > last {
            last
        } else {
            self.selected_log
        };
    }

    /// The warning lines for the current state.
    #[verifier::spinoff_prover]
    #[verifier::rlimit(40)]
    pub fn warnings(&self) -> (r: Vec<String>)
        ensures
            texts(r@) == self.warning_lines(),
    {
        let s = &self.snapshot;
        let t = self.config.thresholds;
        let mut r: Vec<String> = Vec::new();
        if (s.cpu_usage_hundredths as i64) >= t.cpu_percent {
            let pct = decimal_string(
                rounded_quotient(s.cpu_usage_hundredths as u128, 100) as u64,
            );
            let line = join3("CPU ", pct.as_str(), "%");
            proof {
                lemma_texts_push(r@, line);
            }
            r.push(line);
        }
        if reaches_threshold(s.memory_used_bytes, s.memory_total_bytes, t.memory_percent) {
            let pct = decimal_string_wide(
                rounded_percent_of(s.memory_used_bytes, s.memory_total_bytes),
            );
            let line = join3("Memory ", pct.as_str(), "%");
            proof {
                lemma_texts_push(r@, line);
            }
            r.push(line);
        }
        let mut disks = disk_warnings(&s.disks, t.disk_percent);
        proof {
            lemma_texts_append(r@, disks@);
        }
        r.append(&mut disks);
        let failed = failing_services(&s.services);
        if failed > 0 {
            let count = decimal_string(failed as u64);
            let line = join2(count.as_str(), " service check(s) failing");
            proof {
                lemma_texts_push(r@, line);
            }
            r.push(line);
        }
        let unavailable = unavailable_sources(&self.log_sources);
        if unavailable > 0 {
            let count = decimal_string(unavailable as u64);
            let line = join2(count.as_str(), " log source(s) unavailable");
            proof {
                lemma_texts_push(r@, line);
            }
            r.push(line);
        }
        if self.socket_error.is_some() {
            let line = String::from_str("Port collection unavailable");
            proof {
                lemma_texts_push(r@, line);
            }
            r.push(line);
        }
        proof {
            let w = self.warning_lines();
            assert(texts(r@) =~= w);
        }
        r
    }

    /// Drops the oldest chart samples beyond the capacity after adding one for the current
    /// snapshot.
    fn record_history(&mut self)
        requires
            network_totals_fit(old(self).snapshot),
        ensures
            final(self).history@ == keep_newest(
                old(self).history@.push(history_point(old(self).snapshot)),
                old(self).history_capacity(),
            ),
            *final(self) == (App { history: final(self).history, ..*old(self) }),
    {
        let point = sample_of(&self.snapshot);
        let capacity = if self.config.history_points >= 10 {
            self.config.history_points
        } else {
            10
        };
        self.history.push_back(point);
        trim_oldest(&mut self.history, capacity);
    }

    /// Moves the process, network, socket and disk selections back into their lists.
    fn clamp_selections(&mut self)
        ensures
            *final(self) == (App {
                selected_process: clamped(old(self).selected_process, old(self).shown_processes().len()),
                selected_network: clamped(old(self).selected_network, old(self).snapshot.networks@.len()),
                selected_socket: clamped(old(self).selected_socket, old(self).shown_sockets().len()),
                selected_disk: clamped(old(self).selected_disk, old(self).snapshot.disks@.len()),
                ..*old(self)
            }),
    {
        let vp = self.visible_processes();
        assert(derefs(vp@).len() == vp@.len());
        let processes = vp.len();
        let vs = self.visible_sockets();
        assert(derefs(vs@).len() == vs@.len());
        let sockets = vs.len();
        let p_last = processes.saturating_sub(1);
        let n_last = self.snapshot.networks.len().saturating_sub(1);
        let s_last = sockets.saturating_sub(1);
        let d_last = self.snapshot.disks.len().saturating_sub(1);
        if self.selected_process > p_last {
            self.selected_process = p_last;
        }
        if self.selected_network > n_last {
            self.selected_network = n_last;
        }
        if self.selected_socket > s_last {
            self.selected_socket = s_last;
        }
        if self.selected_disk > d_last {
            self.selected_disk = d_last;
        }
    }

    /// Applies a user action to the state.
    #[verifier::spinoff_prover]
    #[verifier::rlimit(60)]
    pub fn apply(&mut self, action: Action)
        requires
            action == Action::MoveDown ==> old(self).selection() < usize::MAX,
        ensures
            App::applied(*old(self), *final(self), action),
    {
        match action {
            Action::Quit => self.running = false,
            Action::NextTab => self.next_tab(),
            Action::PreviousTab => self.previous_tab(),
            Action::MoveUp => self.move_up(),
            Action::MoveDown => self.move_down(),
            Action::First => self.select_first(),
            Action::Last => self.select_last(),
            Action::TogglePause => {
                self.paused = !self.paused;
                self.message = Some(
                    if self.paused {
                        String::from_str("Live updates paused")
                    } else {
                        String::from_str("Live updates resumed")
                    },
                );
            },
            Action::Refresh => self.force_refresh = true,
            Action::ToggleHelp => {
                self.show_help = !self.show_help;
                self.show_details = false;
            },
            Action::CloseOverlay => {
                self.show_help = false;
                self.show_details = false;
                self.message = None;
            },
            Action::OpenDetails => {
                self.show_details = match self.tab {
                    Tab::Processes | Tab::Services | Tab::Logs | Tab::Ports => true,
                    _ => false,
                };
            },
            Action::StartSearch => {
                self.input_mode = InputMode::Search;
                self.search = String::new();
                self.select_first();
            },
            Action::Filter => self.input_mode = InputMode::Search,
            Action::FinishSearch => self.input_mode = InputMode::Normal,
            Action::ClearSearch => {
                self.input_mode = InputMode::Normal;
                self.search = String::new();
                self.select_first();
            },
            Action::SearchChar(character) => {
                push_char(&mut self.search, character);
                self.select_first();
            },
            Action::SearchBackspace => {
                pop_char(&mut self.search);
                self.select_first();
            },
            Action::ExportReport | Action::NoOp => {},
        }
    }
}

/// Law: the log search reads the source name, the level label and the line text, case
/// ignored. A buffered entry is shown exactly when there is no search, or when one of those
/// three, lower-cased, contains the lower-cased search text.
pub proof fn log_search_reads_source_level_and_line(app: App)
    ensures
        forall|i: int|
            0 <= i < app.logs@.len() ==> (#[trigger] app.shown_logs().contains(app.logs@[i]) <==> {
                ||| app.search@.len() == 0
                ||| has_part(lowercase(app.logs@[i].source@), lowercase(app.search@))
                ||| has_part(lowercase(app.logs@[i].level.label_text()), lowercase(app.search@))
                ||| has_part(lowercase(app.logs@[i].line@), lowercase(app.search@))
            }),
{
    broadcast use vstd::seq_lib::group_filter_ensures;

    assert forall|i: int| 0 <= i < app.logs@.len() implies (#[trigger] app.shown_logs().contains(
        app.logs@[i],
    ) <==> {
        ||| app.search@.len() == 0
        ||| has_part(lowercase(app.logs@[i].source@), lowercase(app.search@))
        ||| has_part(lowercase(app.logs@[i].level.label_text()), lowercase(app.search@))
        ||| has_part(lowercase(app.logs@[i].line@), lowercase(app.search@))
    }) by {
        if app.search@.len() > 0 && app.needle().len() == 0 {
            assert(lowercase(app.logs@[i].source@).subrange(0, 0) =~= app.needle());
            assert(occurs_at(lowercase(app.logs@[i].source@), app.needle(), 0));
        }
        if app.shown_logs().contains(app.logs@[i]) {
            let k = choose|k: int| 0 <= k < app.shown_logs().len() && app.shown_logs()[k] == app.logs@[i];
            assert(log_pred(app.needle())(app.shown_logs()[k]));
        }
        if log_matches(app.logs@[i], app.needle()) {
            assert(app.logs@.contains(app.logs@[i]));
            assert(log_pred(app.needle())(app.logs@[i]));
            assert(app.shown_logs().contains(app.logs@[i]));
        }
    }
}

/// Law: the process search reads the name, the command line (both case ignored) and the
/// process id. A process is shown exactly when there is no search, or when the lower-cased
/// name or command line, or the decimal id, contains the lower-cased search text.
pub proof fn process_search_reads_name_command_and_id(app: App)
    ensures
        forall|i: int|
            0 <= i < app.snapshot.processes@.len() ==> (#[trigger] app.shown_processes().contains(
                app.snapshot.processes@[i],
            ) <==> {
                ||| app.search@.len() == 0
                ||| has_part(lowercase(app.snapshot.processes@[i].name@), lowercase(app.search@))
                ||| has_part(lowercase(app.snapshot.processes@[i].command@), lowercase(app.search@))
                ||| has_part(
                    decimal(app.snapshot.processes@[i].pid as nat),
                    lowercase(app.search@),
                )
            }),
{
    broadcast use vstd::seq_lib::group_filter_ensures;

    assert forall|i: int| 0 <= i < app.snapshot.processes@.len() implies (
    #[trigger] app.shown_processes().contains(app.snapshot.processes@[i]) <==> {
        ||| app.search@.len() == 0
        ||| has_part(lowercase(app.snapshot.processes@[i].name@), lowercase(app.search@))
        ||| has_part(lowercase(app.snapshot.processes@[i].command@), lowercase(app.search@))
        ||| has_part(decimal(app.snapshot.processes@[i].pid as nat), lowercase(app.search@))
    }) by {
        let p = app.snapshot.processes@[i];
        if app.search@.len() > 0 && app.needle().len() == 0 {
            assert(lowercase(p.name@).subrange(0, 0) =~= app.needle());
            assert(occurs_at(lowercase(p.name@), app.needle(), 0));
        }
        if app.shown_processes().contains(p) {
            let k = choose|k: int| 0 <= k < app.shown_processes().len() && app.shown_processes()[k] == p;
            assert(process_pred(app.needle())(app.shown_processes()[k]));
        }
        if process_matches(p, app.needle()) {
            assert(app.snapshot.processes@.contains(p));
            assert(process_pred(app.needle())(p));
            assert(app.shown_processes().contains(p));
        }
    }
}

/// Law: in normal mode the right arrow, Tab and `l` move to the next view of the tab bar, and
/// the left arrow, Shift-Tab and `h` to the previous one, wrapping around at either end;
/// each clears the search. The up arrow and `k` move the selection one row up, the down
/// arrow and `j` one row down (staying within the list).
pub proof fn navigation_keys_move_as_labelled(old: App, new: App, code: KeyCode, control: bool)
    requires
        App::applied(old, new, key_action(Key { code, control }, InputMode::Normal)),
    ensures
        code == KeyCode::Right || code == KeyCode::Tab || code == KeyCode::Char('l') ==> {
            &&& new.tab.position() == (old.tab.position() + 1) % 7
            &&& new.search@.len() == 0
        },
        code == KeyCode::Left || code == KeyCode::BackTab || code == KeyCode::Char('h') ==> {
            &&& (new.tab.position() + 1) % 7 == old.tab.position()
            &&& new.search@.len() == 0
        },
        code == KeyCode::Up || code == KeyCode::Char('k') ==> {
            &&& new.tab == old.tab
            &&& new.selection() == if old.selection() == 0 {
                0
            } else {
                old.selection() - 1
            }
        },
        (code == KeyCode::Down || code == KeyCode::Char('j')) && old.selection() < last_index(
            old.rows(),
        ) && old.selection() < usize::MAX ==> new.tab == old.tab && new.selection() == old.selection() + 1,
{
}

/// Law: the port search reads the local address and the connection state (case ignored),
/// the decimal port, and the names of the owning processes (case ignored). A socket is shown
/// exactly when there is no search, or when one of those, lower-cased, contains the
/// lower-cased search text.
pub proof fn port_search_reads_address_port_state_and_owners(app: App)
    ensures
        forall|i: int|
            0 <= i < app.snapshot.sockets@.len() ==> (#[trigger] app.shown_sockets().contains(
                app.snapshot.sockets@[i],
            ) <==> {
                ||| app.search@.len() == 0
                ||| has_part(lowercase(app.snapshot.sockets@[i].local_address@), lowercase(app.search@))
                ||| has_part(decimal(app.snapshot.sockets@[i].local_port as nat), lowercase(app.search@))
                ||| has_part(lowercase(app.snapshot.sockets@[i].state@), lowercase(app.search@))
                ||| exists|k: int|
                    0 <= k < app.snapshot.sockets@[i].process_names@.len() && has_part(
                        lowercase(#[trigger] app.snapshot.sockets@[i].process_names@[k]@),
                        lowercase(app.search@),
                    )
            }),
{
    broadcast use vstd::seq_lib::group_filter_ensures;

    assert forall|i: int| 0 <= i < app.snapshot.sockets@.len() implies (
    #[trigger] app.shown_sockets().contains(app.snapshot.sockets@[i]) <==> {
        ||| app.search@.len() == 0
        ||| has_part(lowercase(app.snapshot.sockets@[i].local_address@), lowercase(app.search@))
        ||| has_part(decimal(app.snapshot.sockets@[i].local_port as nat), lowercase(app.search@))
        ||| has_part(lowercase(app.snapshot.sockets@[i].state@), lowercase(app.search@))
        ||| exists|k: int|
            0 <= k < app.snapshot.sockets@[i].process_names@.len() && has_part(
                lowercase(#[trigger] app.snapshot.sockets@[i].process_names@[k]@),
                lowercase(app.search@),
            )
    }) by {
        let x = app.snapshot.sockets@[i];
        if app.search@.len() > 0 && app.needle().len() == 0 {
            assert(lowercase(x.local_address@).subrange(0, 0) =~= app.needle());
            assert(occurs_at(lowercase(x.local_address@), app.needle(), 0));
        }
        if app.shown_sockets().contains(x) {
            let k = choose|k: int| 0 <= k < app.shown_sockets().len() && app.shown_sockets()[k] == x;
            assert(socket_pred(app.needle())(app.shown_sockets()[k]));
        }
        if socket_matches(x, app.needle()) {
            assert(app.snapshot.sockets@.contains(x));
            assert(socket_pred(app.needle())(x));
            assert(app.shown_sockets().contains(x));
        }
    }
}

/// Law: in normal mode the command keys do what the help line says: `q` quits, space pauses
/// or resumes, `r` asks for a refresh, `/` starts a new search, `f` returns to the current
/// search text, `?` shows or hides the help, Esc closes the overlays, Home and `g` select the
/// first row, End and `G` the last, and `e` asks for a report export (which changes no state).
pub proof fn command_keys_act_as_labelled(old: App, new: App, code: KeyCode, control: bool)
    requires
        App::applied(old, new, key_action(Key { code, control }, InputMode::Normal)),
    ensures
        code == KeyCode::Char('q') ==> !new.running,
        code == KeyCode::Char(' ') ==> new.paused == !old.paused,
        code == KeyCode::Char('r') ==> new.force_refresh,
        code == KeyCode::Char('/') ==> new.input_mode == InputMode::Search && new.search@.len()
            == 0,
        code == KeyCode::Char('f') ==> new.input_mode == InputMode::Search && new.search
            == old.search,
        code == KeyCode::Char('?') ==> new.show_help == !old.show_help,
        code == KeyCode::Esc ==> !new.show_help && !new.show_details,
        code == KeyCode::Home || code == KeyCode::Char('g') ==> new.tab == old.tab
            && new.selection() == 0,
        (code == KeyCode::End || code == KeyCode::Char('G')) && last_index(old.rows())
            <= usize::MAX ==> new.tab == old.tab && new.selection() == last_index(old.rows()),
        code == KeyCode::Char('e') ==> key_action(Key { code, control }, InputMode::Normal)
            == Action::ExportReport && new == old,
{
}

} // verus!
