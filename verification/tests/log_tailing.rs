use wsentry::config::LogConfig;
use wsentry::logs::{
    detect_level, LogBatch, LogTailer, SourceRead, INITIAL_READ_BYTES, MAX_APPEND_BYTES,
};
use wsentry::model::LogLevel;

/// One poll of the tailer over files held in memory: `None` stands for a file that cannot be
/// opened.
fn poll_files(tailer: &mut LogTailer, files: &[Option<&[u8]>]) -> LogBatch {
    let mut reads = Vec::new();
    for (index, file) in files.iter().enumerate() {
        match file {
            Some(content) => {
                let length = content.len() as u64;
                let window = tailer.begin_read(index, length);
                let start = window.start as usize;
                let end = start + window.count as usize;
                reads.push(SourceRead::Read {
                    length,
                    bytes: content[start..end].to_vec(),
                });
            }
            None => reads.push(SourceRead::Failed(
                "No such file or directory (os error 2)".to_owned(),
            )),
        }
    }
    assert!(tailer.fits(&reads));
    tailer.poll(reads)
}

fn one_source(name: &str, path: &str) -> LogTailer {
    LogTailer::new(
        &[LogConfig {
            name: name.to_owned(),
            path: path.to_owned(),
        }],
        "/var/project",
    )
}

#[test]
fn tails_only_new_lines_and_handles_truncation() {
    let mut tailer = one_source("api", "api.log");
    let first = poll_files(&mut tailer, &[Some(b"INFO started\nWARN slow\n")]);
    assert_eq!(first.entries.len(), 2);
    assert_eq!(first.entries[1].level, LogLevel::Warn);
    let second = poll_files(&mut tailer, &[Some(b"ERROR restarted\n")]);
    assert_eq!(second.entries.len(), 1);
    assert_eq!(second.entries[0].level, LogLevel::Error);
}

#[test]
fn reports_missing_sources_without_panicking() {
    let mut tailer = one_source("missing", "missing.log");
    let batch = poll_files(&mut tailer, &[None]);
    assert!(batch.entries.is_empty());
    assert!(!batch.sources[0].available);
}

#[test]
fn preserves_partial_lines_across_polls() {
    let mut tailer = one_source("worker", "worker.log");
    let first = poll_files(&mut tailer, &[Some(b"INFO ready\nWARN queue")]);
    assert_eq!(first.entries.len(), 1);
    assert_eq!(first.entries[0].line, "INFO ready");
    let second = poll_files(&mut tailer, &[Some(b"INFO ready\nWARN queue depth high\n")]);
    assert_eq!(second.entries.len(), 1);
    assert_eq!(second.entries[0].line, "WARN queue depth high");
}

#[test]
fn relative_paths_are_taken_from_the_base_directory() {
    let tailer = LogTailer::new(
        &[
            LogConfig {
                name: "api".to_owned(),
                path: "logs/api.log".to_owned(),
            },
            LogConfig {
                name: "system".to_owned(),
                path: "/var/log/syslog".to_owned(),
            },
        ],
        "/var/project",
    );
    assert_eq!(tailer.source_count(), 2);
    assert_eq!(tailer.source_path(0), "/var/project/logs/api.log");
    assert_eq!(tailer.source_path(1), "/var/log/syslog");
}

#[test]
fn entries_are_numbered_across_sources_and_polls() {
    let mut tailer = LogTailer::new(
        &[
            LogConfig {
                name: "api".to_owned(),
                path: "api.log".to_owned(),
            },
            LogConfig {
                name: "db".to_owned(),
                path: "db.log".to_owned(),
            },
        ],
        "/p",
    );
    let first = poll_files(&mut tailer, &[Some(b"one\n"), Some(b"two\nthree\n")]);
    let numbers: Vec<u64> = first.entries.iter().map(|e| e.sequence).collect();
    assert_eq!(numbers, vec![1, 2, 3]);
    assert_eq!(first.entries[0].source, "api");
    assert_eq!(first.entries[2].source, "db");
    assert_eq!(first.sources.len(), 2);
    assert!(first.sources.iter().all(|s| s.available));
    assert_eq!(first.sources[1].path, "/p/db.log");
    let second = poll_files(&mut tailer, &[Some(b"one\nfour\n"), None]);
    assert_eq!(second.entries.len(), 1);
    assert_eq!(second.entries[0].sequence, 4);
    assert_eq!(second.entries[0].line, "four");
    assert!(!second.sources[1].available);
    assert_eq!(
        second.sources[1].message.as_deref(),
        Some("No such file or directory (os error 2)")
    );
}

#[test]
fn blank_lines_and_trailing_spaces_are_dropped() {
    let mut tailer = one_source("api", "api.log");
    let batch = poll_files(&mut tailer, &[Some(b"first  \r\n\n   \nsecond\t\n")]);
    let lines: Vec<&str> = batch.entries.iter().map(|e| e.line.as_str()).collect();
    assert_eq!(lines, vec!["first", "second"]);
}

#[test]
fn a_large_existing_file_is_read_from_its_last_lines() {
    let mut content = Vec::new();
    while (content.len() as u64) < INITIAL_READ_BYTES + 100 {
        content.extend_from_slice(b"INFO filler line\n");
    }
    content.extend_from_slice(b"ERROR newest\n");
    let mut tailer = one_source("api", "api.log");
    let batch = poll_files(&mut tailer, &[Some(&content)]);
    let start = content.len() - INITIAL_READ_BYTES as usize;
    let first_newline = start + content[start..].iter().position(|b| *b == b'\n').unwrap();
    let expected = content[first_newline + 1..]
        .iter()
        .filter(|b| **b == b'\n')
        .count();
    assert_eq!(batch.entries.len(), expected);
    assert!(batch.entries.iter().all(|e| e.line == "INFO filler line" || e.line == "ERROR newest"));
    assert_eq!(batch.entries.last().unwrap().line, "ERROR newest");
}

#[test]
fn read_windows_cover_what_is_new() {
    let mut tailer = one_source("api", "api.log");
    let window = tailer.begin_read(0, 10);
    assert_eq!((window.start, window.count), (0, 10));
    let _ = tailer.poll(vec![SourceRead::Read {
        length: 10,
        bytes: b"abcdefghi\n".to_vec(),
    }]);
    let window = tailer.begin_read(0, 10 + 2 * MAX_APPEND_BYTES);
    assert_eq!((window.start, window.count), (10, MAX_APPEND_BYTES));
    let window = tailer.begin_read(0, 4);
    assert_eq!((window.start, window.count), (0, 4));
}

#[test]
fn levels_come_from_the_first_matching_word() {
    assert_eq!(detect_level("2024 error: disk full"), LogLevel::Error);
    assert_eq!(detect_level("FATAL crash"), LogLevel::Error);
    assert_eq!(detect_level("warning: slow"), LogLevel::Warn);
    assert_eq!(detect_level("Info ready"), LogLevel::Info);
    assert_eq!(detect_level("debug x"), LogLevel::Debug);
    assert_eq!(detect_level("trace y"), LogLevel::Trace);
    assert_eq!(detect_level("info but error"), LogLevel::Error);
    assert_eq!(detect_level("nothing here"), LogLevel::Unknown);
}

#[test]
fn invalid_utf8_is_replaced() {
    let mut tailer = one_source("api", "api.log");
    let batch = poll_files(&mut tailer, &[Some(b"ok \xff!\n")]);
    assert_eq!(batch.entries[0].line, "ok \u{fffd}!");
}
