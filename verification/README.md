# wsentry

A terminal monitor for a machine and a project: processes, service health checks, followed
log files, network interfaces, listening ports and disks, with a scriptable report and an
environment check.

The crate has two parts.

- `src/` is the library, written in Verus and verified: the interface state and its key
  handling, configuration validation, incremental log tailing, the collection schedule,
  service check outcomes, socket and process ordering, the text report and its redaction,
  the environment check, and every text the interface shows. Each public function states
  what it returns or changes; the laws (proof functions named for what they state) relate
  several functions.
- `app/` is the program around it: argument parsing (clap), configuration files (serde and
  toml), sampling the machine (sysinfo, listeners), the health probes (reqwest, tokio), file
  reading, the background worker, and drawing (ratatui, crossterm). It hands the library
  plain values and performs what the library decides.

Percentages are held as hundredths of a percent and timestamps as seconds and nanoseconds
since the epoch, so that the library works on integers; the program converts at its edge.

Duration settings (service intervals and timeouts) are read by humantime. A text with more
than eleven digits is refused before it reaches the parser: such texts can describe totals
near `u64::MAX` seconds, and on a few of those humantime panics.
