//! The point-in-time diagnostic report, and its redaction for sharing.

use vstd::prelude::*;

use crate::format::{
    byte_text, bytes, duration, duration_text, hundredths, hundredths_text, hundredths_to_tenths,
    percent, percent_tenths, round_div, tenths, tenths_text,
};
use crate::model::{
    HealthState, LoadAverage, ProcessSnapshot, ServiceStatus, SocketSnapshot, SystemSnapshot,
};
use crate::text::{decimal, decimal_string, join2, join3, occurs_at};
use crate::time::{compact_utc, compact_utc_text, representable, rfc3339, rfc3339_text};

verus! {

/// What replaces a sensitive value.
pub const REDACTED: &'static str = "[redacted]";

/// The name of a health state, as `{:?}` writes it.
pub open spec fn state_name_text(state: HealthState) -> Seq<char> {
    match state {
        HealthState::Healthy => "Healthy"@,
        HealthState::Unhealthy => "Unhealthy"@,
        HealthState::Unknown => "Unknown"@,
    }
}

/// The name of a health state.
pub fn state_name(state: HealthState) -> (r: &'static str)
    ensures
        r@ == state_name_text(state),
{
    match state {
        HealthState::Healthy => "Healthy",
        HealthState::Unhealthy => "Unhealthy",
        HealthState::Unknown => "Unknown",
    }
}

/// A labelled report line.
pub open spec fn labeled(label: Seq<char>, value: Seq<char>) -> Seq<char> {
    label + value + "\n"@
}

/// The uptime as it is shown, or `unavailable`.
pub open spec fn uptime_text(uptime: Option<u64>) -> Seq<char> {
    match uptime {
        Some(seconds) => duration_text(seconds as nat),
        None => "unavailable"@,
    }
}

/// The three load averages with two decimals each.
pub open spec fn load_text(load: LoadAverage) -> Seq<char> {
    hundredths_text(load.one as nat) + " "@ + hundredths_text(load.five as nat) + " "@
        + hundredths_text(load.fifteen as nat)
}

/// Memory in use, the total, and the share in use.
pub open spec fn memory_text(used: nat, total: nat) -> Seq<char> {
    byte_text(used) + " / "@ + byte_text(total) + " ("@ + tenths_text(percent_tenths(used, total))
        + "%)"@
}

/// The report line of one service check.
pub open spec fn service_line(s: ServiceStatus) -> Seq<char> {
    "- "@ + s.name@ + ": "@ + state_name_text(s.state) + " ("@ + s.target@ + ")\n"@
}

/// The report lines of the service checks, in order.
pub open spec fn service_lines(services: Seq<ServiceStatus>) -> Seq<char>
    decreases services.len(),
{
    if services.len() == 0 {
        Seq::empty()
    } else {
        service_lines(services.drop_last()) + service_line(services.last())
    }
}

/// The service section: empty without checks.
pub open spec fn services_section(services: Seq<ServiceStatus>) -> Seq<char> {
    if services.len() == 0 {
        Seq::empty()
    } else {
        "\nServices:\n"@ + service_lines(services)
    }
}

/// The text report of a snapshot.
pub open spec fn report_text(s: SystemSnapshot) -> Seq<char> {
    "Windorion Sentry diagnostic report\n"@ + labeled(
        "Generated: "@,
        rfc3339_text(s.timestamp.seconds, s.timestamp.nanos),
    ) + labeled("Host: "@, s.host_name@) + labeled("OS: "@, s.os_name@) + labeled(
        "Kernel: "@,
        s.kernel_version@,
    ) + labeled("Uptime: "@, uptime_text(s.uptime_seconds)) + labeled(
        "CPU: "@,
        tenths_text(round_div(s.cpu_usage_hundredths as nat, 10)) + "%"@,
    ) + labeled("Load: "@, load_text(s.load_average)) + labeled(
        "Memory: "@,
        memory_text(s.memory_used_bytes as nat, s.memory_total_bytes as nat),
    ) + labeled("Processes: "@, decimal(s.processes@.len())) + labeled(
        "Disks: "@,
        decimal(s.disks@.len()),
    ) + labeled("Network interfaces: "@, decimal(s.networks@.len())) + labeled(
        "Ports and sockets: "@,
        decimal(s.sockets@.len()),
    ) + labeled("Service checks: "@, decimal(s.services@.len())) + services_section(
        s.services@,
    )
}

/// A labelled report line.
fn line(label: &str, value: &str) -> (r: String)
    ensures
        r@ == labeled(label@, value@),
{
    proof {
        reveal_strlit("\n");
    }
    join3(label, value, "\n")
}

/// Appends a labelled line with a count.
fn push_count(out: &mut String, label: &str, n: usize)
    ensures
        final(out)@ == old(out)@ + labeled(label@, decimal(n as nat)),
{
    let digits = decimal_string(n as u64);
    let l = line(label, digits.as_str());
    out.append(l.as_str());
}

/// The uptime as it is shown.
pub fn uptime(value: Option<u64>) -> (r: String)
    ensures
        r@ == uptime_text(value),
{
    match value {
        Some(seconds) => duration(seconds),
        None => {
            proof {
                reveal_strlit("unavailable");
            }
            String::from_str("unavailable")
        },
    }
}

/// The three load averages.
pub fn load(l: LoadAverage) -> (r: String)
    ensures
        r@ == load_text(l),
{
    let a = hundredths(l.one);
    let b = hundredths(l.five);
    let c = hundredths(l.fifteen);
    proof {
        reveal_strlit(" ");
    }
    let ab = join3(a.as_str(), " ", b.as_str());
    join3(ab.as_str(), " ", c.as_str())
}

/// Memory in use, the total, and the share in use.
pub fn memory(used: u64, total: u64) -> (r: String)
    ensures
        r@ == memory_text(used as nat, total as nat),
{
    let u = bytes(used);
    let t = bytes(total);
    let p = tenths(percent(used, total));
    proof {
        reveal_strlit(" / ");
        reveal_strlit(" (");
        reveal_strlit("%)");
    }
    let mut r = join3(u.as_str(), " / ", t.as_str());
    r.append(" (");
    r.append(p.as_str());
    r.append("%)");
    r
}

/// The report line of one service check.
pub fn service_entry(s: &ServiceStatus) -> (r: String)
    ensures
        r@ == service_line(*s),
{
    proof {
        reveal_strlit("- ");
        reveal_strlit(": ");
        reveal_strlit(" (");
        reveal_strlit(")\n");
    }
    let mut r = join3("- ", s.name.as_str(), ": ");
    r.append(state_name(s.state));
    r.append(" (");
    r.append(s.target.as_str());
    r.append(")\n");
    r
}

/// The text report of a snapshot, whose timestamp chrono can write.
pub fn text(snapshot: &SystemSnapshot) -> (r: String)
    requires
        representable(snapshot.timestamp),
    ensures
        r@ == report_text(*snapshot),
{
    let s = snapshot;
    proof {
        reveal_strlit("Windorion Sentry diagnostic report\n");
        reveal_strlit("%");
    }
    let mut out = String::from_str("Windorion Sentry diagnostic report\n");
    let generated = rfc3339(s.timestamp);
    out.append(line("Generated: ", generated.as_str()).as_str());
    out.append(line("Host: ", s.host_name.as_str()).as_str());
    out.append(line("OS: ", s.os_name.as_str()).as_str());
    out.append(line("Kernel: ", s.kernel_version.as_str()).as_str());
    let up = uptime(s.uptime_seconds);
    out.append(line("Uptime: ", up.as_str()).as_str());
    let cpu_number = tenths(hundredths_to_tenths(s.cpu_usage_hundredths));
    let cpu = join2(cpu_number.as_str(), "%");
    out.append(line("CPU: ", cpu.as_str()).as_str());
    let l = load(s.load_average);
    out.append(line("Load: ", l.as_str()).as_str());
    let m = memory(s.memory_used_bytes, s.memory_total_bytes);
    out.append(line("Memory: ", m.as_str()).as_str());
    push_count(&mut out, "Processes: ", s.processes.len());
    push_count(&mut out, "Disks: ", s.disks.len());
    push_count(&mut out, "Network interfaces: ", s.networks.len());
    push_count(&mut out, "Ports and sockets: ", s.sockets.len());
    push_count(&mut out, "Service checks: ", s.services.len());
    if s.services.len() > 0 {
        proof {
            reveal_strlit("\nServices:\n");
        }
        let ghost before = out@;
        out.append("\nServices:\n");
        let mut i: usize = 0;
        while i < s.services.len()
            invariant
                i <= s.services@.len(),
                out@ == before + "\nServices:\n"@ + service_lines(s.services@.take(i as int)),
            decreases s.services@.len() - i,
        {
            let entry = service_entry(&s.services[i]);
            out.append(entry.as_str());
            assert(s.services@.take(i + 1).drop_last() =~= s.services@.take(i as int));
            i = i + 1;
        }
        assert(s.services@.take(i as int) =~= s.services@);
    }
    out
}

/// The file name of a report written at `seconds` since the epoch, in UTC.
pub open spec fn report_file_text(seconds: i64) -> Seq<char> {
    "wsentry-report-"@ + compact_utc_text(seconds) + ".json"@
}

/// The file name of a report written at `seconds` since the epoch: `None` only for a time
/// beyond the calendar's range.
pub fn report_file_name(seconds: i64) -> (r: Option<String>)
    ensures
        r matches Some(name) ==> name@ == report_file_text(seconds),
        -8_000_000_000_000 <= seconds <= 8_000_000_000_000 ==> r is Some,
{
    match compact_utc(seconds) {
        Some(stamp) => {
            proof {
                reveal_strlit("wsentry-report-");
                reveal_strlit(".json");
            }
            Some(join3("wsentry-report-", stamp.as_str(), ".json"))
        },
        None => None,
    }
}

/// `after` is `before` with its command line replaced, unless it has none.
pub open spec fn process_redacted(before: ProcessSnapshot, after: ProcessSnapshot) -> bool {
    &&& after == (ProcessSnapshot { command: after.command, ..before })
    &&& after.command@ == if before.command@.len() == 0 {
        before.command@
    } else {
        REDACTED@
    }
}

/// `after` is `before` with its local address, and its remote address if any, replaced.
pub open spec fn socket_redacted(before: SocketSnapshot, after: SocketSnapshot) -> bool {
    &&& after == (SocketSnapshot {
        local_address: after.local_address,
        remote_address: after.remote_address,
        ..before
    })
    &&& after.local_address@ == REDACTED@
    &&& after.remote_address is Some == before.remote_address is Some
    &&& after.remote_address matches Some(a) ==> a@ == REDACTED@
}

/// `after` is `before` with its target replaced.
pub open spec fn service_redacted(before: ServiceStatus, after: ServiceStatus) -> bool {
    &&& after == (ServiceStatus { target: after.target, ..before })
    &&& after.target@ == REDACTED@
}

/// `after` is `before` with the host name, command lines, socket addresses and service
/// targets replaced, and nothing else changed.
pub open spec fn snapshot_redacted(before: SystemSnapshot, after: SystemSnapshot) -> bool {
    &&& after == (SystemSnapshot {
        host_name: after.host_name,
        processes: after.processes,
        sockets: after.sockets,
        services: after.services,
        ..before
    })
    &&& after.host_name@ == REDACTED@
    &&& after.processes@.len() == before.processes@.len()
    &&& forall|i: int|
        0 <= i < before.processes@.len() ==> process_redacted(
            before.processes@[i],
            #[trigger] after.processes@[i],
        )
    &&& after.sockets@.len() == before.sockets@.len()
    &&& forall|i: int|
        0 <= i < before.sockets@.len() ==> socket_redacted(
            before.sockets@[i],
            #[trigger] after.sockets@[i],
        )
    &&& after.services@.len() == before.services@.len()
    &&& forall|i: int|
        0 <= i < before.services@.len() ==> service_redacted(
            before.services@[i],
            #[trigger] after.services@[i],
        )
}

/// Replaces the sensitive fields of a snapshot: the host name, every non-empty command line,
/// every socket address and every service target.
pub fn redact(snapshot: SystemSnapshot) -> (r: SystemSnapshot)
    ensures
        snapshot_redacted(snapshot, r),
{
    let mut snapshot = snapshot;
    let ghost given = snapshot;
    snapshot.host_name = String::from_str(REDACTED);

    let mut processes: Vec<ProcessSnapshot> = Vec::new();
    std::mem::swap(&mut processes, &mut snapshot.processes);
    let mut out_processes: Vec<ProcessSnapshot> = Vec::new();
    let mut i: usize = 0;
    while i < processes.len()
        invariant
            processes@ == given.processes@,
            i <= processes@.len(),
            out_processes@.len() == i,
            forall|k: int|
                0 <= k < i ==> process_redacted(processes@[k], #[trigger] out_processes@[k]),
        decreases processes@.len() - i,
    {
        let p = &processes[i];
        let command = if p.command.as_str().unicode_len() == 0 {
            p.command.clone()
        } else {
            String::from_str(REDACTED)
        };
        let q = ProcessSnapshot {
            pid: p.pid,
            name: p.name.clone(),
            cpu_usage_hundredths: p.cpu_usage_hundredths,
            memory_bytes: p.memory_bytes,
            virtual_memory_bytes: p.virtual_memory_bytes,
            status: p.status.clone(),
            run_time_seconds: p.run_time_seconds,
            command,
        };
        out_processes.push(q);
        i = i + 1;
    }
    snapshot.processes = out_processes;

    let mut sockets: Vec<SocketSnapshot> = Vec::new();
    std::mem::swap(&mut sockets, &mut snapshot.sockets);
    let mut out_sockets: Vec<SocketSnapshot> = Vec::new();
    for socket in it: sockets.into_iter()
        invariant
            it.seq() == given.sockets@,
            out_sockets@.len() == it.index(),
            forall|k: int|
                0 <= k < it.index() ==> socket_redacted(
                    given.sockets@[k],
                    #[trigger] out_sockets@[k],
                ),
    {
        let mut socket = socket;
        socket.local_address = String::from_str(REDACTED);
        socket.remote_address = match socket.remote_address {
            Some(_) => Some(String::from_str(REDACTED)),
            None => None,
        };
        out_sockets.push(socket);
    }
    snapshot.sockets = out_sockets;

    let mut services: Vec<ServiceStatus> = Vec::new();
    std::mem::swap(&mut services, &mut snapshot.services);
    let mut out_services: Vec<ServiceStatus> = Vec::new();
    let mut n: usize = 0;
    while n < services.len()
        invariant
            services@ == given.services@,
            n <= services@.len(),
            out_services@.len() == n,
            forall|k: int|
                0 <= k < n ==> service_redacted(services@[k], #[trigger] out_services@[k]),
        decreases services@.len() - n,
    {
        let v = &services[n];
        let w = ServiceStatus {
            name: v.name.clone(),
            target: String::from_str(REDACTED),
            state: v.state,
            latency_ms: v.latency_ms,
            status_code: v.status_code,
            checked_at: v.checked_at,
            message: v.message.clone(),
        };
        out_services.push(w);
        n = n + 1;
    }
    snapshot.services = out_services;
    snapshot
}

/// The snapshot as a report shows it: redacted when asked, else unchanged.
pub fn shared_form(snapshot: SystemSnapshot, redacted: bool) -> (r: SystemSnapshot)
    ensures
        redacted ==> snapshot_redacted(snapshot, r),
        !redacted ==> r == snapshot,
{
    if redacted {
        redact(snapshot)
    } else {
        snapshot
    }
}

/// Law: a redacted snapshot has nothing left to hide. It is itself a redaction of itself,
/// and redacting it again replaces each sensitive field by the same marker and leaves every
/// other field alone, so the second redaction agrees with the first on every field.
pub proof fn redaction_is_stable(before: SystemSnapshot, once: SystemSnapshot, twice: SystemSnapshot)
    requires
        snapshot_redacted(before, once),
        snapshot_redacted(once, twice),
    ensures
        snapshot_redacted(once, once),
        twice.host_name@ == once.host_name@,
        twice.processes@.len() == once.processes@.len(),
        forall|i: int|
            0 <= i < once.processes@.len() ==> (#[trigger] twice.processes@[i]).command@
                == once.processes@[i].command@,
        twice.sockets@.len() == once.sockets@.len(),
        forall|i: int|
            0 <= i < once.sockets@.len() ==> (#[trigger] twice.sockets@[i]).local_address@
                == once.sockets@[i].local_address@,
        forall|i: int|
            0 <= i < once.sockets@.len() ==> {
                &&& (#[trigger] twice.sockets@[i]).remote_address is Some
                    == once.sockets@[i].remote_address is Some
                &&& twice.sockets@[i].remote_address matches Some(a) ==> a@
                    == once.sockets@[i].remote_address->0@
            },
        twice.services@.len() == once.services@.len(),
        forall|i: int|
            0 <= i < once.services@.len() ==> (#[trigger] twice.services@[i]).target@
                == once.services@[i].target@,
{
    assert forall|i: int| 0 <= i < once.processes@.len() implies (
    #[trigger] twice.processes@[i]).command@ == once.processes@[i].command@ by {
        assert(process_redacted(before.processes@[i], once.processes@[i]));
        assert(process_redacted(once.processes@[i], twice.processes@[i]));
        reveal_strlit("[redacted]");
    }
    assert forall|i: int| 0 <= i < once.sockets@.len() implies (
    #[trigger] twice.sockets@[i]).local_address@ == once.sockets@[i].local_address@ by {
        assert(socket_redacted(before.sockets@[i], once.sockets@[i]));
        assert(socket_redacted(once.sockets@[i], twice.sockets@[i]));
    }
    assert forall|i: int| 0 <= i < once.services@.len() implies (
    #[trigger] twice.services@[i]).target@ == once.services@[i].target@ by {
        assert(service_redacted(before.services@[i], once.services@[i]));
        assert(service_redacted(once.services@[i], twice.services@[i]));
    }
}

/// `line` stands in `text` as a whole line: at the start or right after a line break, and
/// followed by a line break.
pub open spec fn has_line(text: Seq<char>, line: Seq<char>) -> bool {
    exists|i: int| #[trigger] occurs_at(text, line.push('\n'), i) && (i == 0 || text[i - 1] == '\n')
}

proof fn lemma_line_at_end(p: Seq<char>, label: Seq<char>, value: Seq<char>)
    requires
        p.len() == 0 || p.last() == '\n',
    ensures
        has_line(p + labeled(label, value), label + value),
        (p + labeled(label, value)).last() == '\n',
{
    reveal_strlit("\n");
    let t = p + labeled(label, value);
    let line = (label + value).push('\n');
    assert(labeled(label, value) =~= line);
    assert(t.subrange(p.len() as int, (p.len() + line.len()) as int) =~= line);
    assert(occurs_at(t, line, p.len() as int));
}

proof fn lemma_ends_with_break(p: Seq<char>, label: Seq<char>, value: Seq<char>)
    ensures
        (p + labeled(label, value)).last() == '\n',
{
    reveal_strlit("\n");
}

proof fn lemma_line_kept(t: Seq<char>, line: Seq<char>, q: Seq<char>)
    requires
        has_line(t, line),
    ensures
        has_line(t + q, line),
{
    let i = choose|i: int| #[trigger] occurs_at(t, line.push('\n'), i) && (i == 0 || t[i - 1] == '\n');
    assert((t + q).subrange(i, i + line.len() + 1) =~= t.subrange(i, i + line.len() + 1));
    assert(occurs_at(t + q, line.push('\n'), i));
}

/// Law: the report counts each list of the snapshot on a line of its own: the processes, the
/// disks, the network interfaces, the ports and sockets and the service checks, each by its
/// own number of items.
pub proof fn report_counts_each_list(s: SystemSnapshot)
    ensures
        has_line(report_text(s), "Processes: "@ + decimal(s.processes@.len())),
        has_line(report_text(s), "Disks: "@ + decimal(s.disks@.len())),
        has_line(report_text(s), "Network interfaces: "@ + decimal(s.networks@.len())),
        has_line(report_text(s), "Ports and sockets: "@ + decimal(s.sockets@.len())),
        has_line(report_text(s), "Service checks: "@ + decimal(s.services@.len())),
{
    let t0 = "Windorion Sentry diagnostic report\n"@ + labeled(
        "Generated: "@,
        rfc3339_text(s.timestamp.seconds, s.timestamp.nanos),
    ) + labeled("Host: "@, s.host_name@) + labeled("OS: "@, s.os_name@) + labeled(
        "Kernel: "@,
        s.kernel_version@,
    ) + labeled("Uptime: "@, uptime_text(s.uptime_seconds)) + labeled(
        "CPU: "@,
        tenths_text(round_div(s.cpu_usage_hundredths as nat, 10)) + "%"@,
    ) + labeled("Load: "@, load_text(s.load_average));
    lemma_ends_with_break(
        "Windorion Sentry diagnostic report\n"@ + labeled(
            "Generated: "@,
            rfc3339_text(s.timestamp.seconds, s.timestamp.nanos),
        ) + labeled("Host: "@, s.host_name@) + labeled("OS: "@, s.os_name@) + labeled(
            "Kernel: "@,
            s.kernel_version@,
        ) + labeled("Uptime: "@, uptime_text(s.uptime_seconds)) + labeled(
            "CPU: "@,
            tenths_text(round_div(s.cpu_usage_hundredths as nat, 10)) + "%"@,
        ),
        "Load: "@,
        load_text(s.load_average),
    );
    let u0 = labeled("Memory: "@, memory_text(s.memory_used_bytes as nat, s.memory_total_bytes as nat));
    let lp = labeled("Processes: "@, decimal(s.processes@.len()));
    let ld = labeled("Disks: "@, decimal(s.disks@.len()));
    let ln = labeled("Network interfaces: "@, decimal(s.networks@.len()));
    let ls = labeled("Ports and sockets: "@, decimal(s.sockets@.len()));
    let lc = labeled("Service checks: "@, decimal(s.services@.len()));
    let rest = services_section(s.services@);
    lemma_line_at_end(t0, "Memory: "@, memory_text(s.memory_used_bytes as nat, s.memory_total_bytes as nat));
    let t1 = t0 + u0;
    lemma_line_at_end(t1, "Processes: "@, decimal(s.processes@.len()));
    let t2 = t1 + lp;
    lemma_line_at_end(t2, "Disks: "@, decimal(s.disks@.len()));
    let t3 = t2 + ld;
    lemma_line_at_end(t3, "Network interfaces: "@, decimal(s.networks@.len()));
    let t4 = t3 + ln;
    lemma_line_at_end(t4, "Ports and sockets: "@, decimal(s.sockets@.len()));
    let t5 = t4 + ls;
    lemma_line_at_end(t5, "Service checks: "@, decimal(s.services@.len()));
    let t6 = t5 + lc;
    let r = t6 + rest;
    assert(report_text(s) == r);
    let pl = "Processes: "@ + decimal(s.processes@.len());
    let dl = "Disks: "@ + decimal(s.disks@.len());
    let nl = "Network interfaces: "@ + decimal(s.networks@.len());
    let sl = "Ports and sockets: "@ + decimal(s.sockets@.len());
    let cl = "Service checks: "@ + decimal(s.services@.len());
    lemma_line_kept(t2, pl, ld);
    lemma_line_kept(t3, pl, ln);
    lemma_line_kept(t3, dl, ln);
    lemma_line_kept(t4, pl, ls);
    lemma_line_kept(t4, dl, ls);
    lemma_line_kept(t4, nl, ls);
    lemma_line_kept(t5, pl, lc);
    lemma_line_kept(t5, dl, lc);
    lemma_line_kept(t5, nl, lc);
    lemma_line_kept(t5, sl, lc);
    lemma_line_kept(t6, pl, rest);
    lemma_line_kept(t6, dl, rest);
    lemma_line_kept(t6, nl, rest);
    lemma_line_kept(t6, sl, rest);
    lemma_line_kept(t6, cl, rest);
}

} // verus!
