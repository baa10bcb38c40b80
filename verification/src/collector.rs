//! Snapshot sources: the ordering applied to live process lists, and the deterministic demo
//! data. Sampling the live machine asks the operating system and runs outside.

use vstd::prelude::*;

use crate::model::{
    DiskSnapshot, HealthState, LoadAverage, NetworkSnapshot, ProcessSnapshot, ServiceStatus,
    SocketProtocol, SocketSnapshot, SystemSnapshot, Timestamp,
};
use crate::sort::{sort_stable, stable_sorted, SortKey};
use crate::text::{join_strings, join_texts, owned, texts};

verus! {

impl SortKey for ProcessSnapshot {
    /// Busier processes first: higher CPU usage, then more memory.
    open spec fn goes_before(a: ProcessSnapshot, b: ProcessSnapshot) -> bool {
        ||| a.cpu_usage_hundredths > b.cpu_usage_hundredths
        ||| a.cpu_usage_hundredths == b.cpu_usage_hundredths && a.memory_bytes >= b.memory_bytes
    }

    proof fn goes_before_total(a: ProcessSnapshot, b: ProcessSnapshot) {
    }

    proof fn goes_before_transitive(a: ProcessSnapshot, b: ProcessSnapshot, c: ProcessSnapshot) {
    }

    fn sorts_before(&self, other: &ProcessSnapshot) -> (r: bool) {
        self.cpu_usage_hundredths > other.cpu_usage_hundredths || (self.cpu_usage_hundredths
            == other.cpu_usage_hundredths && self.memory_bytes >= other.memory_bytes)
    }
}

/// The processes with the busiest first: by CPU usage, then memory, both descending (equal
/// keys keep their order).
pub fn order_processes(processes: Vec<ProcessSnapshot>) -> (r: Vec<ProcessSnapshot>)
    ensures
        r@ == stable_sorted(processes@),
{
    sort_stable(processes)
}

/// Law: the ordered process list puts higher CPU usage first, and at equal CPU usage the
/// process using more memory first (whatever the usage, idle processes included); it holds
/// exactly the sampled processes.
pub proof fn busiest_processes_come_first(processes: Seq<ProcessSnapshot>)
    ensures
        forall|i: int, j: int|
            0 <= i < j < processes.len() ==> (#[trigger] stable_sorted(processes)[i]).cpu_usage_hundredths
                >= (#[trigger] stable_sorted(processes)[j]).cpu_usage_hundredths,
        forall|i: int, j: int|
            0 <= i < j < processes.len() && (#[trigger] stable_sorted(processes)[i]).cpu_usage_hundredths
                == (#[trigger] stable_sorted(processes)[j]).cpu_usage_hundredths
                ==> stable_sorted(processes)[i].memory_bytes >= stable_sorted(processes)[j].memory_bytes,
        stable_sorted(processes).to_multiset() == processes.to_multiset(),
{
    crate::sort::stable_sort_orders_and_permutes(processes);
}

/// What the live collector read of one process.
#[derive(Clone, Debug)]
pub struct ProcessReading {
    pub pid: u32,
    pub name: String,
    /// CPU usage in hundredths of a percent of one core.
    pub cpu_usage_hundredths: u32,
    pub memory_bytes: u64,
    pub virtual_memory_bytes: u64,
    pub status: String,
    pub run_time_seconds: u64,
    /// The command line, one argument per item.
    pub command_parts: Vec<String>,
}

/// The process record of a reading: the command line is its arguments joined by spaces.
pub open spec fn process_of(p: ProcessReading, r: ProcessSnapshot) -> bool {
    &&& r.pid == p.pid
    &&& r.name == p.name
    &&& r.cpu_usage_hundredths == p.cpu_usage_hundredths
    &&& r.memory_bytes == p.memory_bytes
    &&& r.virtual_memory_bytes == p.virtual_memory_bytes
    &&& r.status == p.status
    &&& r.run_time_seconds == p.run_time_seconds
    &&& r.command@ == join_texts(texts(p.command_parts@), " "@)
}

/// The process record of a reading.
pub fn process_from(p: ProcessReading) -> (r: ProcessSnapshot)
    ensures
        process_of(p, r),
{
    let command = join_strings(&p.command_parts, " ");
    ProcessSnapshot {
        pid: p.pid,
        name: p.name,
        cpu_usage_hundredths: p.cpu_usage_hundredths,
        memory_bytes: p.memory_bytes,
        virtual_memory_bytes: p.virtual_memory_bytes,
        status: p.status,
        run_time_seconds: p.run_time_seconds,
        command,
    }
}

/// What the live collector read of the machine for one sample; `None` where a reading failed.
#[derive(Clone, Debug)]
pub struct HostReadings {
    pub timestamp: Timestamp,
    pub host_name: Option<String>,
    /// The long operating system name, such as "Linux 24.04 Ubuntu".
    pub long_os_version: Option<String>,
    /// The short operating system name.
    pub os_name: Option<String>,
    /// The platform the program was built for, such as "linux".
    pub platform: String,
    pub kernel_version: Option<String>,
    pub uptime_seconds: Option<u64>,
    /// Overall CPU usage in hundredths of a percent.
    pub cpu_usage_hundredths: u32,
    pub load_average: Option<LoadAverage>,
    pub memory_used_bytes: u64,
    pub memory_total_bytes: u64,
    pub swap_used_bytes: u64,
    pub swap_total_bytes: u64,
}

/// `value`, or `fallback` when it is missing.
pub open spec fn or_text(value: Option<String>, fallback: Seq<char>) -> Seq<char> {
    match value {
        Some(v) => v@,
        None => fallback,
    }
}

/// The snapshot of the live machine: missing names read "unknown", a missing operating
/// system name falls back to the short name and then to the platform, a missing load average
/// reads as zero, and the processes are ordered busiest first. Service and socket results
/// arrive separately.
pub open spec fn local_snapshot_is(
    r: SystemSnapshot,
    h: HostReadings,
    processes: Seq<ProcessReading>,
    disks: Seq<DiskSnapshot>,
    networks: Seq<NetworkSnapshot>,
) -> bool {
    &&& r.timestamp == h.timestamp
    &&& r.host_name@ == or_text(h.host_name, "unknown"@)
    &&& r.os_name@ == match h.long_os_version {
        Some(v) => v@,
        None => or_text(h.os_name, h.platform@),
    }
    &&& r.kernel_version@ == or_text(h.kernel_version, "unknown"@)
    &&& r.uptime_seconds == h.uptime_seconds
    &&& r.cpu_usage_hundredths == h.cpu_usage_hundredths
    &&& r.load_average == match h.load_average {
        Some(l) => l,
        None => LoadAverage { one: 0, five: 0, fifteen: 0 },
    }
    &&& r.memory_used_bytes == h.memory_used_bytes
    &&& r.memory_total_bytes == h.memory_total_bytes
    &&& r.swap_used_bytes == h.swap_used_bytes
    &&& r.swap_total_bytes == h.swap_total_bytes
    &&& exists|unsorted: Seq<ProcessSnapshot>|
        {
            &&& unsorted.len() == processes.len()
            &&& forall|i: int|
                0 <= i < processes.len() ==> process_of(processes[i], #[trigger] unsorted[i])
            &&& r.processes@ == stable_sorted(unsorted)
        }
    &&& r.disks@ == disks
    &&& r.networks@ == networks
    &&& r.services@.len() == 0
    &&& r.sockets@.len() == 0
}

/// `value`, or `fallback` when it is missing.
fn or_owned(value: Option<String>, fallback: &str) -> (r: String)
    ensures
        r@ == or_text(value, fallback@),
{
    match value {
        Some(v) => v,
        None => owned(fallback),
    }
}

/// Builds the snapshot of the live machine from what was read.
pub fn local_snapshot(
    h: HostReadings,
    processes: Vec<ProcessReading>,
    disks: Vec<DiskSnapshot>,
    networks: Vec<NetworkSnapshot>,
) -> (r: SystemSnapshot)
    ensures
        local_snapshot_is(r, h, processes@, disks@, networks@),
{
    let ghost readings = processes@;
    let mut unsorted: Vec<ProcessSnapshot> = Vec::new();
    for p in it: processes.into_iter()
        invariant
            it.seq() == readings,
            unsorted@.len() == it.index(),
            forall|k: int| 0 <= k < it.index() ==> process_of(readings[k], #[trigger] unsorted@[k]),
    {
        unsorted.push(process_from(p));
    }
    let ghost snapshot_processes = unsorted@;
    let ordered = order_processes(unsorted);
    let HostReadings {
        timestamp,
        host_name,
        long_os_version,
        os_name,
        platform,
        kernel_version,
        uptime_seconds,
        cpu_usage_hundredths,
        load_average,
        memory_used_bytes,
        memory_total_bytes,
        swap_used_bytes,
        swap_total_bytes,
    } = h;
    proof {
        reveal_strlit("unknown");
    }
    let os = match long_os_version {
        Some(v) => v,
        None => or_owned(os_name, platform.as_str()),
    };
    let load = match load_average {
        Some(l) => l,
        None => LoadAverage { one: 0, five: 0, fifteen: 0 },
    };
    let r = SystemSnapshot {
        timestamp,
        host_name: or_owned(host_name, "unknown"),
        os_name: os,
        kernel_version: or_owned(kernel_version, "unknown"),
        uptime_seconds,
        cpu_usage_hundredths,
        load_average: load,
        memory_used_bytes,
        memory_total_bytes,
        swap_used_bytes,
        swap_total_bytes,
        processes: ordered,
        disks,
        networks,
        services: Vec::new(),
        sockets: Vec::new(),
    };
    assert(r.processes@ == stable_sorted(snapshot_processes));
    r
}

/// Deterministic simulated data for the demo mode.
pub struct DemoCollector {
    tick: u64,
}

/// One gibibyte.
pub const GIB: u64 = 1073741824;

/// The largest tick for which the demo counters do not overflow.
pub const DEMO_TICK_LIMIT: u64 = 2_305_843_009_213_591;

impl DemoCollector {
    /// How many samples have been taken.
    pub closed spec fn ticks(self) -> u64 {
        self.tick
    }

    /// How many samples have been taken.
    pub fn tick_count(&self) -> (r: u64)
        ensures
            r == self.ticks(),
    {
        self.tick
    }

    /// A demo source that has taken no sample.
    pub fn new() -> (r: DemoCollector)
        ensures
            r.ticks() == 0,
    {
        DemoCollector { tick: 0 }
    }

    /// Counts one more sample and returns its number.
    pub fn advance(&mut self) -> (r: u64)
        requires
            old(self).ticks() < DEMO_TICK_LIMIT,
        ensures
            final(self).ticks() == old(self).ticks() + 1,
            r == final(self).ticks(),
    {
        self.tick = self.tick + 1;
        self.tick
    }

    /// The sample number `tick`, given the overall CPU usage and memory use that the demo
    /// wave yields for it, taken at `now`.
    pub fn snapshot(&self, cpu_hundredths: u32, memory_used_bytes: u64, now: Timestamp) -> (r:
        SystemSnapshot)
        requires
            self.ticks() <= DEMO_TICK_LIMIT,
        ensures
            demo_snapshot_is(r, self.ticks(), cpu_hundredths, memory_used_bytes, now),
    {
        let tick = self.tick;
        let cpu = cpu_hundredths as u64;
        let processes = vec![
            ProcessSnapshot {
                pid: 4201,
                name: String::from_str("api-server"),
                cpu_usage_hundredths: (cpu * 38 / 100) as u32,
                memory_bytes: 1_240_000_000,
                virtual_memory_bytes: 2_800_000_000,
                status: String::from_str("Run"),
                run_time_seconds: 8_420,
                command: String::from_str("./api-server --environment development"),
            },
            ProcessSnapshot {
                pid: 4377,
                name: String::from_str("postgres"),
                cpu_usage_hundredths: (cpu * 21 / 100) as u32,
                memory_bytes: 860_000_000,
                virtual_memory_bytes: 1_900_000_000,
                status: String::from_str("Sleep"),
                run_time_seconds: 22_180,
                command: String::from_str("postgres -D ./data"),
            },
            ProcessSnapshot {
                pid: 4612,
                name: String::from_str("worker"),
                cpu_usage_hundredths: (cpu * 14 / 100) as u32,
                memory_bytes: 430_000_000,
                virtual_memory_bytes: 980_000_000,
                status: String::from_str("Run"),
                run_time_seconds: 6_221,
                command: String::from_str("./worker --queue default"),
            },
        ];
        let disks = vec![
            DiskSnapshot {
                name: String::from_str("system"),
                mount_point: String::from_str("/"),
                file_system: String::from_str("apfs"),
                kind: String::from_str("SSD"),
                total_bytes: 512 * GIB,
                available_bytes: 206 * GIB,
            },
        ];
        let networks = vec![
            NetworkSnapshot {
                interface: String::from_str("en0"),
                received_bytes: 820_000 + tick * 8_000,
                transmitted_bytes: 210_000 + tick * 3_000,
                total_received_bytes: 24_800_000_000,
                total_transmitted_bytes: 8_400_000_000,
                packets_received: 42_000,
                packets_transmitted: 18_000,
                errors_received: 0,
                errors_transmitted: 0,
            },
        ];
        let services = vec![
            ServiceStatus {
                name: String::from_str("api"),
                target: String::from_str("http://127.0.0.1:8080/health"),
                state: HealthState::Healthy,
                latency_ms: Some(18),
                status_code: Some(200),
                checked_at: now,
                message: None,
            },
            ServiceStatus {
                name: String::from_str("postgres"),
                target: String::from_str("127.0.0.1:5432"),
                state: HealthState::Healthy,
                latency_ms: Some(4),
                status_code: None,
                checked_at: now,
                message: None,
            },
            ServiceStatus {
                name: String::from_str("worker"),
                target: String::from_str("127.0.0.1:9000"),
                state: HealthState::Unhealthy,
                latency_ms: Some(302),
                status_code: None,
                checked_at: now,
                message: Some(String::from_str("connection refused")),
            },
        ];
        let api_pids: Vec<u32> = vec![4201];
        let database_pids: Vec<u32> = vec![4377];
        assert(api_pids@ =~= seq![4201u32]);
        assert(database_pids@ =~= seq![4377u32]);
        let sockets = vec![
            SocketSnapshot {
                protocol: SocketProtocol::Tcp,
                local_address: String::from_str("127.0.0.1"),
                local_port: 8080,
                remote_address: None,
                remote_port: None,
                state: String::from_str("LISTEN"),
                associated_pids: api_pids,
                process_names: vec![String::from_str("api-server")],
            },
            SocketSnapshot {
                protocol: SocketProtocol::Tcp,
                local_address: String::from_str("127.0.0.1"),
                local_port: 5432,
                remote_address: None,
                remote_port: None,
                state: String::from_str("LISTEN"),
                associated_pids: database_pids,
                process_names: vec![String::from_str("postgres")],
            },
        ];
        SystemSnapshot {
            timestamp: now,
            host_name: String::from_str("demo-workstation"),
            os_name: String::from_str("Windorion OS 1.0"),
            kernel_version: String::from_str("demo-kernel"),
            uptime_seconds: Some(391_420 + tick),
            cpu_usage_hundredths: cpu_hundredths,
            load_average: LoadAverage { one: 124, five: 108, fifteen: 92 },
            memory_used_bytes,
            memory_total_bytes: 16 * GIB,
            swap_used_bytes: 540_000_000,
            swap_total_bytes: 2 * GIB,
            processes,
            disks,
            networks,
            services,
            sockets,
        }
    }
}

/// A demo process record.
pub open spec fn demo_process_is(
    p: ProcessSnapshot,
    pid: u32,
    name: Seq<char>,
    cpu: int,
    memory: u64,
    virtual_memory: u64,
    status: Seq<char>,
    run_time: u64,
    command: Seq<char>,
) -> bool {
    &&& p.pid == pid
    &&& p.name@ == name
    &&& p.cpu_usage_hundredths == cpu
    &&& p.memory_bytes == memory
    &&& p.virtual_memory_bytes == virtual_memory
    &&& p.status@ == status
    &&& p.run_time_seconds == run_time
    &&& p.command@ == command
}

/// A demo service check result, taken at `now`.
pub open spec fn demo_service_is(
    s: ServiceStatus,
    name: Seq<char>,
    target: Seq<char>,
    state: HealthState,
    latency: u128,
    code: Option<u16>,
    now: Timestamp,
) -> bool {
    &&& s.name@ == name
    &&& s.target@ == target
    &&& s.state == state
    &&& s.latency_ms == Some(latency)
    &&& s.status_code == code
    &&& s.checked_at == now
}

/// A demo listening TCP socket on the loopback address, owned by one process.
pub open spec fn demo_socket_is(s: SocketSnapshot, port: u16, pid: u32, process: Seq<char>) -> bool {
    &&& s.protocol == SocketProtocol::Tcp
    &&& s.local_address@ == "127.0.0.1"@
    &&& s.local_port == port
    &&& s.remote_address is None
    &&& s.remote_port is None
    &&& s.state@ == "LISTEN"@
    &&& s.associated_pids@ == seq![pid]
    &&& s.process_names@.len() == 1
    &&& s.process_names@[0]@ == process
}

/// What the demo sample number `tick` holds.
pub open spec fn demo_snapshot_is(
    s: SystemSnapshot,
    tick: u64,
    cpu_hundredths: u32,
    memory_used_bytes: u64,
    now: Timestamp,
) -> bool {
    &&& s.timestamp == now
    &&& s.host_name@ == "demo-workstation"@
    &&& s.os_name@ == "Windorion OS 1.0"@
    &&& s.kernel_version@ == "demo-kernel"@
    &&& s.uptime_seconds == Some((391_420 + tick) as u64)
    &&& s.cpu_usage_hundredths == cpu_hundredths
    &&& s.load_average == (LoadAverage { one: 124, five: 108, fifteen: 92 })
    &&& s.memory_used_bytes == memory_used_bytes
    &&& s.memory_total_bytes == 16 * GIB
    &&& s.swap_used_bytes == 540_000_000
    &&& s.swap_total_bytes == 2 * GIB
    &&& s.processes@.len() == 3
    &&& demo_process_is(
        s.processes@[0],
        4201,
        "api-server"@,
        cpu_hundredths * 38 / 100,
        1_240_000_000,
        2_800_000_000,
        "Run"@,
        8_420,
        "./api-server --environment development"@,
    )
    &&& demo_process_is(
        s.processes@[1],
        4377,
        "postgres"@,
        cpu_hundredths * 21 / 100,
        860_000_000,
        1_900_000_000,
        "Sleep"@,
        22_180,
        "postgres -D ./data"@,
    )
    &&& demo_process_is(
        s.processes@[2],
        4612,
        "worker"@,
        cpu_hundredths * 14 / 100,
        430_000_000,
        980_000_000,
        "Run"@,
        6_221,
        "./worker --queue default"@,
    )
    &&& s.disks@.len() == 1
    &&& s.disks@[0].name@ == "system"@
    &&& s.disks@[0].mount_point@ == "/"@
    &&& s.disks@[0].file_system@ == "apfs"@
    &&& s.disks@[0].kind@ == "SSD"@
    &&& s.disks@[0].total_bytes == 512 * GIB
    &&& s.disks@[0].available_bytes == 206 * GIB
    &&& s.networks@.len() == 1
    &&& s.networks@[0] == (NetworkSnapshot {
        interface: s.networks@[0].interface,
        received_bytes: (820_000 + tick * 8_000) as u64,
        transmitted_bytes: (210_000 + tick * 3_000) as u64,
        total_received_bytes: 24_800_000_000,
        total_transmitted_bytes: 8_400_000_000,
        packets_received: 42_000,
        packets_transmitted: 18_000,
        errors_received: 0,
        errors_transmitted: 0,
    })
    &&& s.networks@[0].interface@ == "en0"@
    &&& s.services@.len() == 3
    &&& demo_service_is(
        s.services@[0],
        "api"@,
        "http://127.0.0.1:8080/health"@,
        HealthState::Healthy,
        18,
        Some(200),
        now,
    )
    &&& s.services@[0].message is None
    &&& demo_service_is(
        s.services@[1],
        "postgres"@,
        "127.0.0.1:5432"@,
        HealthState::Healthy,
        4,
        None,
        now,
    )
    &&& s.services@[1].message is None
    &&& demo_service_is(
        s.services@[2],
        "worker"@,
        "127.0.0.1:9000"@,
        HealthState::Unhealthy,
        302,
        None,
        now,
    )
    &&& s.services@[2].message matches Some(m) && m@ == "connection refused"@
    &&& s.sockets@.len() == 2
    &&& demo_socket_is(s.sockets@[0], 8080, 4201, "api-server"@)
    &&& demo_socket_is(s.sockets@[1], 5432, 4377, "postgres"@)
}

/// Law: each demo sample moves the traffic counters on by a fixed step and the uptime by one
/// second. Two samples numbered one apart (whatever CPU and memory the wave gave them, and
/// whenever they were taken) differ by 8,000 received and 3,000 sent bytes, and the counters
/// of sample `tick` are 820,000 and 210,000 bytes plus that many steps.
pub proof fn demo_traffic_grows_by_a_fixed_step(
    earlier: SystemSnapshot,
    later: SystemSnapshot,
    tick: u64,
    cpu: (u32, u32),
    memory: (u64, u64),
    taken: (Timestamp, Timestamp),
)
    requires
        tick < DEMO_TICK_LIMIT,
        demo_snapshot_is(earlier, tick, cpu.0, memory.0, taken.0),
        demo_snapshot_is(later, (tick + 1) as u64, cpu.1, memory.1, taken.1),
    ensures
        earlier.networks@[0].received_bytes == 820_000 + 8_000 * tick,
        earlier.networks@[0].transmitted_bytes == 210_000 + 3_000 * tick,
        later.networks@[0].received_bytes == earlier.networks@[0].received_bytes + 8_000,
        later.networks@[0].transmitted_bytes == earlier.networks@[0].transmitted_bytes + 3_000,
        later.uptime_seconds == Some((earlier.uptime_seconds->0 + 1) as u64),
        earlier.memory_total_bytes == later.memory_total_bytes,
{
}

} // verus!
