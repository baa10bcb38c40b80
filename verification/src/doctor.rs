//! The environment check: which collectors the platform supports, whether output goes to a
//! terminal, and whether the configuration loads.

use vstd::prelude::*;

use crate::config::CONFIG_FILE_NAME;
use crate::text::{join2, owned, pad_right, padded, texts};

verus! {

/// One finding of the environment check.
#[derive(Clone, Debug)]
pub struct DoctorCheck {
    pub name: String,
    pub ok: bool,
    pub detail: String,
}

/// The findings of the environment check.
#[derive(Clone, Debug)]
pub struct DoctorReport {
    pub version: String,
    pub os: String,
    pub architecture: String,
    pub system_collection_supported: bool,
    pub stdout_is_terminal: bool,
    pub config_path: Option<String>,
    pub config_valid: bool,
    pub checks: Vec<DoctorCheck>,
}

/// What was observed of the machine and the configuration.
#[derive(Clone, Debug)]
pub struct Observations {
    pub version: String,
    pub os: String,
    pub architecture: String,
    /// Whether the system collector can run here.
    pub system_collection_supported: bool,
    pub stdout_is_terminal: bool,
    /// The configuration file found, with the outcome of loading it: nothing, or why it
    /// failed.
    pub config: Option<(String, Result<(), String>)>,
}

/// Whether native socket discovery supports this platform, as `listeners::IS_OS_SUPPORTED`
/// says. Nothing is claimed of the value: it is fixed when the program is built, by the
/// platform it is built for.
#[verifier::external_body]
pub(crate) fn port_discovery_supported() -> (r: bool) {
    listeners::IS_OS_SUPPORTED
}

/// A finding with the given texts.
pub open spec fn check_is(c: DoctorCheck, name: Seq<char>, ok: bool, detail: Seq<char>) -> bool {
    &&& c.name@ == name
    &&& c.ok == ok
    &&& c.detail@ == detail
}

/// The findings that `inspect` reports for the observations, with `ports` the platform's
/// socket discovery support.
pub open spec fn inspected(r: DoctorReport, o: Observations, ports: bool) -> bool {
    &&& r.version == o.version
    &&& r.os == o.os
    &&& r.architecture == o.architecture
    &&& r.system_collection_supported == o.system_collection_supported
    &&& r.stdout_is_terminal == o.stdout_is_terminal
    &&& r.config_path == match o.config {
        Some((path, _)) => Some(path),
        None => None,
    }
    &&& r.config_valid == match o.config {
        Some((_, outcome)) => outcome is Ok,
        None => true,
    }
    &&& r.checks@.len() == 4
    &&& check_is(
        r.checks@[0],
        "system collector"@,
        o.system_collection_supported,
        if o.system_collection_supported {
            "supported on this platform"@
        } else {
            "sysinfo does not support this platform"@
        },
    )
    &&& check_is(
        r.checks@[1],
        "terminal"@,
        true,
        if o.stdout_is_terminal {
            "stdout is an interactive terminal"@
        } else {
            "stdout is not interactive; use report/check for scripts"@
        },
    )
    &&& check_is(
        r.checks@[2],
        "port collector"@,
        ports,
        if ports {
            "native socket discovery is supported"@
        } else {
            "native socket discovery is unavailable on this platform"@
        },
    )
    &&& match o.config {
        Some((path, Ok(()))) => check_is(r.checks@[3], "configuration"@, true, "loaded "@ + path@),
        Some((_, Err(error))) => check_is(r.checks@[3], "configuration"@, false, error@),
        None => check_is(
            r.checks@[3],
            "configuration"@,
            true,
            "no "@ + CONFIG_FILE_NAME@ + " found; defaults will be used"@,
        ),
    }
}

/// A finding.
fn finding(name: &str, ok: bool, detail: String) -> (r: DoctorCheck)
    ensures
        check_is(r, name@, ok, detail@),
{
    DoctorCheck { name: owned(name), ok, detail }
}

/// Assembles the findings from the observations and the platform's socket discovery support.
pub fn inspect(o: Observations) -> (r: DoctorReport)
    ensures
        exists|ports: bool| inspected(r, o, ports),
{
    let ports = port_discovery_supported();
    let r = assemble(o, ports);
    r
}

/// Assembles the findings from the observations, with `ports` the platform's socket discovery
/// support.
pub fn assemble(o: Observations, ports: bool) -> (r: DoctorReport)
    ensures
        inspected(r, o, ports),
{
    proof {
        reveal_strlit("system collector");
        reveal_strlit("supported on this platform");
        reveal_strlit("sysinfo does not support this platform");
        reveal_strlit("terminal");
        reveal_strlit("stdout is an interactive terminal");
        reveal_strlit("stdout is not interactive; use report/check for scripts");
        reveal_strlit("port collector");
        reveal_strlit("native socket discovery is supported");
        reveal_strlit("native socket discovery is unavailable on this platform");
        reveal_strlit("configuration");
        reveal_strlit("loaded ");
        reveal_strlit("no ");
        reveal_strlit(" found; defaults will be used");
    }
    let Observations {
        version,
        os,
        architecture,
        system_collection_supported,
        stdout_is_terminal,
        config,
    } = o;
    let mut checks: Vec<DoctorCheck> = Vec::new();
    checks.push(
        finding(
            "system collector",
            system_collection_supported,
            owned(
                if system_collection_supported {
                    "supported on this platform"
                } else {
                    "sysinfo does not support this platform"
                },
            ),
        ),
    );
    checks.push(
        finding(
            "terminal",
            true,
            owned(
                if stdout_is_terminal {
                    "stdout is an interactive terminal"
                } else {
                    "stdout is not interactive; use report/check for scripts"
                },
            ),
        ),
    );
    checks.push(
        finding(
            "port collector",
            ports,
            owned(
                if ports {
                    "native socket discovery is supported"
                } else {
                    "native socket discovery is unavailable on this platform"
                },
            ),
        ),
    );
    let (config_path, config_valid) = match config {
        Some((path, outcome)) => {
            let valid = outcome.is_ok();
            match outcome {
                Ok(()) => checks.push(
                    finding("configuration", true, join2("loaded ", path.as_str())),
                ),
                Err(error) => checks.push(finding("configuration", false, error)),
            }
            (Some(path), valid)
        },
        None => {
            let mut detail = join2("no ", CONFIG_FILE_NAME);
            detail.append(" found; defaults will be used");
            checks.push(finding("configuration", true, detail));
            (None, true)
        },
    };
    DoctorReport {
        version,
        os,
        architecture,
        system_collection_supported,
        stdout_is_terminal,
        config_path,
        config_valid,
        checks,
    }
}

/// The line of one finding: a mark, the name in 18 columns, the detail.
pub open spec fn check_line_text(c: DoctorCheck) -> Seq<char> {
    (if c.ok {
        "OK"@
    } else {
        "!!"@
    }) + " "@ + pad_right(c.name@, 18) + " "@ + c.detail@ + "\n"@
}

/// The lines of the findings, in order.
pub open spec fn check_lines(checks: Seq<DoctorCheck>) -> Seq<char>
    decreases checks.len(),
{
    if checks.len() == 0 {
        Seq::empty()
    } else {
        check_lines(checks.drop_last()) + check_line_text(checks.last())
    }
}

/// The text form of the findings.
pub open spec fn doctor_text(r: DoctorReport) -> Seq<char> {
    "wsentry doctor "@ + r.version@ + " ("@ + r.os@ + " "@ + r.architecture@ + ")\n"@
        + check_lines(r.checks@)
}

/// The text form of the findings.
pub fn text(report: &DoctorReport) -> (r: String)
    ensures
        r@ == doctor_text(*report),
{
    proof {
        reveal_strlit("wsentry doctor ");
        reveal_strlit(" (");
        reveal_strlit(" ");
        reveal_strlit(")\n");
        reveal_strlit("OK");
        reveal_strlit("!!");
        reveal_strlit("\n");
    }
    let mut out = join2("wsentry doctor ", report.version.as_str());
    out.append(" (");
    out.append(report.os.as_str());
    out.append(" ");
    out.append(report.architecture.as_str());
    out.append(")\n");
    let ghost head = out@;
    let mut i: usize = 0;
    while i < report.checks.len()
        invariant
            i <= report.checks@.len(),
            out@ == head + check_lines(report.checks@.take(i as int)),
        decreases report.checks@.len() - i,
    {
        let c = &report.checks[i];
        let ghost before = out@;
        out.append(if c.ok {
            "OK"
        } else {
            "!!"
        });
        out.append(" ");
        out.append(padded(c.name.as_str(), 18).as_str());
        out.append(" ");
        out.append(c.detail.as_str());
        out.append("\n");
        assert(out@ =~= before + check_line_text(*c));
        assert(report.checks@.take(i + 1).drop_last() =~= report.checks@.take(i as int));
        i = i + 1;
    }
    assert(report.checks@.take(i as int) =~= report.checks@);
    out
}

/// The exit status of the environment check: 1 when some finding is not ok, else 0.
pub fn exit_code(report: &DoctorReport) -> (r: i32)
    ensures
        r == (if exists|i: int| 0 <= i < report.checks@.len() && !(#[trigger] report.checks@[i]).ok {
            1i32
        } else {
            0i32
        }),
{
    let mut i: usize = 0;
    while i < report.checks.len()
        invariant
            i <= report.checks@.len(),
            forall|k: int| 0 <= k < i ==> report.checks@[k].ok,
        decreases report.checks@.len() - i,
    {
        if !report.checks[i].ok {
            return 1;
        }
        i = i + 1;
    }
    0
}

} // verus!
