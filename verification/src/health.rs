//! Service health checks: what to probe for each configured service, the status that a
//! probe's outcome gives, and the order in which results are listed. The probes themselves
//! (HTTP requests and TCP connections under a timeout) are network I/O and run outside.

use vstd::prelude::*;

use crate::config::{parsed_duration, read_duration, ServiceConfig};
use crate::model::{HealthState, ServiceStatus, Timestamp};
use crate::sort::{sort_stable, stable_sorted, SortKey};
use crate::text::{decimal, join2, lemma_text_le_total, lemma_text_le_transitive, text_at_most, text_le};

verus! {

/// The timeout used when a service's timeout does not parse: three seconds.
pub const FALLBACK_TIMEOUT_SECONDS: u64 = 3;

/// The probe to run for a service.
#[derive(Debug)]
pub enum CheckPlan {
    /// Send an HTTP GET to `url`, giving up after the timeout (seconds, nanoseconds).
    Http { url: String, timeout: (u64, u32) },
    /// Open a TCP connection to `target`, giving up after the timeout.
    Tcp { target: String, timeout: (u64, u32) },
    /// The service names no target.
    Unconfigured,
}

/// What an HTTP probe gave.
#[derive(Debug)]
pub enum HttpOutcome {
    /// A response with this status code; `status_text` is the status as the HTTP client
    /// displays it (code and reason phrase).
    Response { code: u16, status_text: String },
    /// No response; the text says why.
    Failed(String),
}

/// What a TCP probe gave.
#[derive(Debug)]
pub enum TcpOutcome {
    Connected,
    /// The connection failed; the text says why.
    Failed(String),
    /// No answer within the timeout.
    TimedOut,
}

/// The timeout of a service: its `timeout` setting, or three seconds if that does not parse.
pub open spec fn service_timeout(s: ServiceConfig) -> (u64, u32) {
    match parsed_duration(s.timeout@) {
        Ok(d) => d,
        Err(_) => (FALLBACK_TIMEOUT_SECONDS, 0),
    }
}

/// The probe for a service: HTTP if it names a health URL, else TCP if it names a target,
/// else none.
pub fn plan_check(service: &ServiceConfig) -> (r: CheckPlan)
    ensures
        match service.health {
            Some(url) => r matches CheckPlan::Http { url: u, timeout } && u@ == url@ && timeout
                == service_timeout(*service),
            None => match service.tcp {
                Some(target) => r matches CheckPlan::Tcp { target: t, timeout } && t@ == target@
                    && timeout == service_timeout(*service),
                None => r is Unconfigured,
            },
        },
        r matches CheckPlan::Http { timeout, .. } ==> timeout.1 < 1_000_000_000,
        r matches CheckPlan::Tcp { timeout, .. } ==> timeout.1 < 1_000_000_000,
{
    let timeout = match read_duration(service.timeout.as_str()) {
        Ok(d) => d,
        Err(_) => (FALLBACK_TIMEOUT_SECONDS, 0),
    };
    match &service.health {
        Some(url) => CheckPlan::Http { url: url.clone(), timeout },
        None => match &service.tcp {
            Some(target) => CheckPlan::Tcp { target: target.clone(), timeout },
            None => CheckPlan::Unconfigured,
        },
    }
}

/// The status of a service that names no target.
pub fn unconfigured_status(name: &str, checked_at: Timestamp) -> (r: ServiceStatus)
    ensures
        r.name@ == name@,
        r.target@ == "not configured"@,
        r.state == HealthState::Unknown,
        r.latency_ms is None,
        r.status_code is None,
        r.checked_at == checked_at,
        r.message is Some && r.message->0@ == "service requires either `health` or `tcp`"@,
{
    ServiceStatus {
        name: String::from_str(name),
        target: String::from_str("not configured"),
        state: HealthState::Unknown,
        latency_ms: None,
        status_code: None,
        checked_at,
        message: Some(String::from_str("service requires either `health` or `tcp`")),
    }
}

/// Whether an HTTP status code means success (200 to 299).
pub open spec fn is_success(code: u16) -> bool {
    200 <= code <= 299
}

/// The status an HTTP probe gives: healthy on a success code; unhealthy on any other code
/// (with the status as message) or on no response (with the error as message).
pub fn http_status(
    name: &str,
    url: &str,
    outcome: HttpOutcome,
    latency_ms: u128,
    checked_at: Timestamp,
) -> (r: ServiceStatus)
    ensures
        r.name@ == name@,
        r.target@ == url@,
        r.latency_ms == Some(latency_ms),
        r.checked_at == checked_at,
        r.state == HealthState::Healthy <==> (outcome matches HttpOutcome::Response { code, .. }
            && 200 <= code < 300),
        match outcome {
            HttpOutcome::Response { code, status_text } => {
                &&& r.status_code == Some(code)
                &&& r.state == (if is_success(code) {
                    HealthState::Healthy
                } else {
                    HealthState::Unhealthy
                })
                &&& if is_success(code) {
                    r.message is None
                } else {
                    r.message is Some && r.message->0@ == "HTTP "@ + status_text@
                }
            },
            HttpOutcome::Failed(error) => {
                &&& r.status_code is None
                &&& r.state == HealthState::Unhealthy
                &&& r.message == Some(error)
            },
        },
{
    match outcome {
        HttpOutcome::Response { code, status_text } => {
            let success = 200 <= code && code <= 299;
            ServiceStatus {
                name: String::from_str(name),
                target: String::from_str(url),
                state: if success {
                    HealthState::Healthy
                } else {
                    HealthState::Unhealthy
                },
                latency_ms: Some(latency_ms),
                status_code: Some(code),
                checked_at,
                message: if success {
                    None
                } else {
                    Some(join2("HTTP ", status_text.as_str()))
                },
            }
        },
        HttpOutcome::Failed(error) => ServiceStatus {
            name: String::from_str(name),
            target: String::from_str(url),
            state: HealthState::Unhealthy,
            latency_ms: Some(latency_ms),
            status_code: None,
            checked_at,
            message: Some(error),
        },
    }
}

/// One part of a duration as humantime writes it: the decimal `value` and the unit `name`,
/// with an `s` after a `plural` unit whose value passes one; no part for a zero value.
pub open spec fn duration_part(value: nat, name: Seq<char>, plural: bool) -> Seq<Seq<char>> {
    if value == 0 {
        seq![]
    } else if plural && value > 1 {
        seq![decimal(value) + name + seq!['s']]
    } else {
        seq![decimal(value) + name]
    }
}

/// The parts joined by single spaces.
pub open spec fn spaced(parts: Seq<Seq<char>>) -> Seq<char>
    decreases parts.len(),
{
    if parts.len() == 0 {
        seq![]
    } else if parts.len() == 1 {
        parts[0]
    } else {
        spaced(parts.drop_last()) + seq![' '] + parts.last()
    }
}

/// How `humantime::format_duration` writes a duration of `seconds` and `nanos`: `0s` for
/// zero, else its years of 365.25 days, months of 30.44 days, days, hours, minutes, seconds,
/// milliseconds, microseconds and nanoseconds, each that is not zero, in that order.
pub open spec fn humantime_text(seconds: u64, nanos: u32) -> Seq<char> {
    if seconds == 0 && nanos == 0 {
        seq!['0', 's']
    } else {
        let ydays = seconds % 31_557_600;
        let mdays = ydays % 2_630_016;
        let day_secs = mdays % 86400;
        spaced(
            duration_part((seconds / 31_557_600) as nat, seq!['y', 'e', 'a', 'r'], true)
                + duration_part((ydays / 2_630_016) as nat, seq!['m', 'o', 'n', 't', 'h'], true)
                + duration_part((mdays / 86400) as nat, seq!['d', 'a', 'y'], true)
                + duration_part((day_secs / 3600) as nat, seq!['h'], false)
                + duration_part((day_secs % 3600 / 60) as nat, seq!['m'], false)
                + duration_part((day_secs % 60) as nat, seq!['s'], false)
                + duration_part((nanos / 1_000_000) as nat, seq!['m', 's'], false)
                + duration_part((nanos / 1000 % 1000) as nat, seq!['u', 's'], false)
                + duration_part((nanos % 1000) as nat, seq!['n', 's'], false),
        )
    }
}

/// Calls `humantime::format_duration` and displays the result, which the crate's `Display`
/// impl lays out as `humantime_text` says (for example `1s` or `2h 37m`; microseconds are
/// written `us`, the crate's `mu` feature being off).
#[verifier::external_body]
pub(crate) fn format_duration(seconds: u64, nanos: u32) -> (r: String)
    requires
        nanos < 1_000_000_000,
    ensures
        r@ == humantime_text(seconds, nanos),
{
    humantime::format_duration(std::time::Duration::new(seconds, nanos)).to_string()
}

/// The status a TCP probe gives: healthy when connected; unhealthy with the error, or with
/// the timeout that ran out, otherwise.
pub fn tcp_status(
    name: &str,
    target: &str,
    outcome: TcpOutcome,
    latency_ms: u128,
    checked_at: Timestamp,
    timeout: (u64, u32),
) -> (r: ServiceStatus)
    requires
        timeout.1 < 1_000_000_000,
    ensures
        r.name@ == name@,
        r.target@ == target@,
        r.latency_ms == Some(latency_ms),
        r.status_code is None,
        r.checked_at == checked_at,
        match outcome {
            TcpOutcome::Connected => r.state == HealthState::Healthy && r.message is None,
            TcpOutcome::Failed(error) => r.state == HealthState::Unhealthy && r.message == Some(
                error,
            ),
            TcpOutcome::TimedOut => {
                &&& r.state == HealthState::Unhealthy
                &&& r.message is Some
                &&& r.message->0@ == "timed out after "@ + humantime_text(timeout.0, timeout.1)
            },
        },
{
    let (state, message) = match outcome {
        TcpOutcome::Connected => (HealthState::Healthy, None),
        TcpOutcome::Failed(error) => (HealthState::Unhealthy, Some(error)),
        TcpOutcome::TimedOut => {
            let text = format_duration(timeout.0, timeout.1);
            (HealthState::Unhealthy, Some(join2("timed out after ", text.as_str())))
        },
    };
    ServiceStatus {
        name: String::from_str(name),
        target: String::from_str(target),
        state,
        latency_ms: Some(latency_ms),
        status_code: None,
        checked_at,
        message,
    }
}

impl SortKey for ServiceStatus {
    open spec fn goes_before(a: ServiceStatus, b: ServiceStatus) -> bool {
        text_le(a.name@, b.name@)
    }

    proof fn goes_before_total(a: ServiceStatus, b: ServiceStatus) {
        lemma_text_le_total(a.name@, b.name@);
    }

    proof fn goes_before_transitive(a: ServiceStatus, b: ServiceStatus, c: ServiceStatus) {
        lemma_text_le_transitive(a.name@, b.name@, c.name@);
    }

    fn sorts_before(&self, other: &ServiceStatus) -> (r: bool) {
        text_at_most(self.name.as_str(), other.name.as_str())
    }
}

/// The check results ordered by service name (equal names keep their order).
pub fn order_by_name(statuses: Vec<ServiceStatus>) -> (r: Vec<ServiceStatus>)
    ensures
        r@ == stable_sorted(statuses@),
{
    sort_stable(statuses)
}

/// Law: the listed results are ordered by name and are exactly the checks that ran.
pub proof fn results_are_listed_by_name(statuses: Seq<ServiceStatus>)
    ensures
        forall|i: int, j: int|
            0 <= i < j < statuses.len() ==> text_le(
                (#[trigger] stable_sorted(statuses)[i]).name@,
                (#[trigger] stable_sorted(statuses)[j]).name@,
            ),
        stable_sorted(statuses).to_multiset() == statuses.to_multiset(),
{
    crate::sort::stable_sort_orders_and_permutes(statuses);
}

} // verus!
