//! Incremental tailing of project log files and log level detection.
//!
//! The tailer keeps, for every configured source, how far the file has been read and the
//! start of a line whose newline has not arrived yet. The caller performs the file access:
//! it asks `begin_read` where to read once it knows the file's length, reads those bytes,
//! and hands what it got (or why it failed) to `poll`, which turns complete lines into
//! entries.

use vstd::prelude::*;

use crate::config::LogConfig;
use crate::model::{LogEntry, LogLevel, LogSourceStatus};
use crate::text::{
    ascii_uppercase, chars_of, contains_chars, has_part, is_space, lemma_texts_push, prefix_of, string_of,
    texts, to_ascii_uppercase, trim_end, trimmed_len,
};

verus! {

/// How much of an existing file is read when a source is first polled.
pub const INITIAL_READ_BYTES: u64 = 262144;

/// The most bytes read from one source in one poll.
pub const MAX_APPEND_BYTES: u64 = 1048576;

/// The byte value of a line feed.
pub const NEWLINE: u8 = 10;

/// What one poll of the log sources produced.
#[derive(Debug)]
pub struct LogBatch {
    pub entries: Vec<LogEntry>,
    pub sources: Vec<LogSourceStatus>,
}

/// The read position of one source.
#[derive(Debug)]
pub struct SourceState {
    name: String,
    path: String,
    offset: u64,
    initialized: bool,
    pending: Vec<u8>,
}

/// The read position of a source as a mathematical value.
pub struct SourceView {
    /// The file offset up to which the file has been read.
    pub offset: u64,
    /// Whether the source has been read before (since it was last truncated).
    pub initialized: bool,
    /// Bytes of a line whose newline has not arrived yet.
    pub pending: Seq<u8>,
}

impl SourceState {
    /// The read position.
    pub closed spec fn view(self) -> SourceView {
        SourceView { offset: self.offset, initialized: self.initialized, pending: self.pending@ }
    }
}

/// Where to read a file: from `start`, at most `count` bytes.
#[derive(Clone, Copy, Debug, PartialEq, Eq, Structural)]
pub struct ReadWindow {
    pub start: u64,
    pub count: u64,
}

/// What reading one source gave.
#[derive(Debug)]
pub enum SourceRead {
    /// The file had `length` bytes; `bytes` were read from the window that `begin_read` gave.
    Read { length: u64, bytes: Vec<u8> },
    /// The file could not be opened or read; the text says why.
    Failed(String),
}

/// Follows the configured log files.
#[derive(Debug)]
pub struct LogTailer {
    sources: Vec<SourceState>,
    sequence: u64,
    /// The directory that relative paths were resolved from.
    base: String,
    /// The paths as configured, before resolution.
    configured: Vec<String>,
}

/// The position after seeing a file of `length` bytes: a file shorter than what was read
/// has been truncated or replaced, so it is read afresh.
pub open spec fn after_length(v: SourceView, length: u64) -> SourceView {
    if length < v.offset {
        SourceView { offset: 0, initialized: false, pending: seq![] }
    } else {
        v
    }
}

/// Where reading starts: where the last read ended, or for a new source the last
/// `INITIAL_READ_BYTES` of the file.
pub open spec fn window_start(v: SourceView, length: u64) -> u64 {
    if v.initialized {
        v.offset
    } else if length > INITIAL_READ_BYTES {
        (length - INITIAL_READ_BYTES) as u64
    } else {
        0
    }
}

/// How much to read: the rest of the file, at most `MAX_APPEND_BYTES`.
pub open spec fn window_count(start: u64, length: u64) -> u64 {
    if length - start > MAX_APPEND_BYTES {
        MAX_APPEND_BYTES
    } else {
        (length - start) as u64
    }
}

/// The position of the first line feed at or after `i`.
pub open spec fn newline_from(b: Seq<u8>, i: int) -> Option<int>
    decreases b.len() - i,
{
    if i < 0 || i >= b.len() {
        None
    } else if b[i] == NEWLINE {
        Some(i)
    } else {
        newline_from(b, i + 1)
    }
}

/// The position of the last line feed before `i`.
pub open spec fn newline_before(b: Seq<u8>, i: int) -> Option<int>
    decreases i,
{
    if i <= 0 || i > b.len() {
        None
    } else if b[i - 1] == NEWLINE {
        Some(i - 1)
    } else {
        newline_before(b, i - 1)
    }
}

/// The bytes read that are kept: when a new source is read from the middle of the file, the
/// partial first line is dropped (everything if no line ends in the bytes).
pub open spec fn kept_bytes(v: SourceView, start: u64, bytes: Seq<u8>) -> Seq<u8> {
    if !v.initialized && start > 0 {
        match newline_from(bytes, 0) {
            Some(i) => bytes.skip(i + 1),
            None => seq![],
        }
    } else {
        bytes
    }
}

/// How many buffered bytes form complete lines: up to the last line feed; with no line feed,
/// all of them once `MAX_APPEND_BYTES` have piled up, else none.
pub open spec fn complete_len(buffered: Seq<u8>) -> nat {
    match newline_before(buffered, buffered.len() as int) {
        Some(i) => (i + 1) as nat,
        None => if buffered.len() >= MAX_APPEND_BYTES {
            buffered.len()
        } else {
            0
        },
    }
}

/// The bytes of complete lines and the pending rest after a read of `bytes` from a file of
/// `length` bytes.
pub open spec fn buffered_after(v: SourceView, length: u64, bytes: Seq<u8>) -> Seq<u8> {
    let w = after_length(v, length);
    w.pending + kept_bytes(w, window_start(w, length), bytes)
}

/// The bytes that form complete lines after a read.
pub open spec fn completed_bytes(v: SourceView, length: u64, bytes: Seq<u8>) -> Seq<u8> {
    let b = buffered_after(v, length, bytes);
    b.take(complete_len(b) as int)
}

/// The read position after a read of `bytes` from a file of `length` bytes.
pub open spec fn absorbed(v: SourceView, length: u64, bytes: Seq<u8>) -> SourceView {
    let w = after_length(v, length);
    let start = window_start(w, length);
    let b = buffered_after(v, length, bytes);
    SourceView {
        offset: if start + bytes.len() > u64::MAX {
            u64::MAX
        } else {
            (start + bytes.len()) as u64
        },
        initialized: true,
        pending: b.skip(complete_len(b) as int),
    }
}

/// What `String::from_utf8_lossy` decodes from bytes.
pub uninterp spec fn lossy_utf8(bytes: Seq<u8>) -> Seq<char>;

/// Calls `String::from_utf8_lossy`, which decodes UTF-8 and puts U+FFFD in place of each
/// invalid sequence. The result is named `lossy_utf8`; also stated: every character comes
/// from at least one byte, so there are no more characters than bytes.
#[verifier::external_body]
pub(crate) fn decode_lossy(bytes: &[u8]) -> (r: String)
    ensures
        r@ == lossy_utf8(bytes@),
        r@.len() <= bytes@.len(),
{
    String::from_utf8_lossy(bytes).into_owned()
}

/// The line, trimmed at the end, as a list of one when it is not blank, else empty.
pub open spec fn kept_line(cur: Seq<char>) -> Seq<Seq<char>> {
    if trim_end(cur).len() > 0 {
        seq![trim_end(cur)]
    } else {
        seq![]
    }
}

/// The non-blank lines of `t`, each trimmed at the end, where `cur` is the part of the
/// current line already seen.
pub open spec fn lines_from(t: Seq<char>, cur: Seq<char>) -> Seq<Seq<char>>
    decreases t.len(),
{
    if t.len() == 0 {
        kept_line(cur)
    } else if t[0] == '\n' {
        kept_line(cur) + lines_from(t.drop_first(), seq![])
    } else {
        lines_from(t.drop_first(), cur.push(t[0]))
    }
}

/// The non-blank lines of a text, each without trailing white space, as
/// `str::lines` with `trim_end` and a filter on empty lines gives them.
pub open spec fn text_lines(t: Seq<char>) -> Seq<Seq<char>> {
    lines_from(t, seq![])
}

/// A line as the tailer hands it out: not empty, without a line feed, and not ending in
/// white space.
pub open spec fn whole_line(l: Seq<char>) -> bool {
    &&& l.len() > 0
    &&& forall|i: int| 0 <= i < l.len() ==> l[i] != '\n'
    &&& !is_space(l.last())
}

/// The lines that a read of `bytes` completes.
pub open spec fn read_lines(v: SourceView, length: u64, bytes: Seq<u8>) -> Seq<Seq<char>> {
    text_lines(lossy_utf8(completed_bytes(v, length, bytes)))
}

/// The level a line announces: the first of ERROR (or FATAL), WARN, INFO, DEBUG, TRACE
/// that occurs in it, ignoring ASCII case.
pub open spec fn level_of(line: Seq<char>) -> LogLevel {
    let u = ascii_uppercase(line);
    if has_part(u, "ERROR"@) || has_part(u, "FATAL"@) {
        LogLevel::Error
    } else if has_part(u, "WARN"@) {
        LogLevel::Warn
    } else if has_part(u, "INFO"@) {
        LogLevel::Info
    } else if has_part(u, "DEBUG"@) {
        LogLevel::Debug
    } else if has_part(u, "TRACE"@) {
        LogLevel::Trace
    } else {
        LogLevel::Unknown
    }
}

/// Detects the level a log line announces.
pub fn detect_level(line: &str) -> (r: LogLevel)
    ensures
        r == level_of(line@),
{
    let upper = to_ascii_uppercase(line);
    if contains_chars(&upper, &chars_of("ERROR")) || contains_chars(&upper, &chars_of("FATAL")) {
        LogLevel::Error
    } else if contains_chars(&upper, &chars_of("WARN")) {
        LogLevel::Warn
    } else if contains_chars(&upper, &chars_of("INFO")) {
        LogLevel::Info
    } else if contains_chars(&upper, &chars_of("DEBUG")) {
        LogLevel::Debug
    } else if contains_chars(&upper, &chars_of("TRACE")) {
        LogLevel::Trace
    } else {
        LogLevel::Unknown
    }
}

/// The position of the first line feed in `b`.
fn first_newline(b: &Vec<u8>) -> (r: Option<usize>)
    ensures
        match r {
            Some(i) => newline_from(b@, 0) == Some(i as int) && i < b@.len(),
            None => newline_from(b@, 0) is None,
        },
{
    let mut i: usize = 0;
    while i < b.len()
        invariant
            i <= b@.len(),
            newline_from(b@, 0) == newline_from(b@, i as int),
        decreases b.len() - i,
    {
        if b[i] == NEWLINE {
            return Some(i);
        }
        i = i + 1;
    }
    None
}

/// The position of the last line feed in `b`.
fn last_newline(b: &Vec<u8>) -> (r: Option<usize>)
    ensures
        match r {
            Some(i) => newline_before(b@, b@.len() as int) == Some(i as int) && i < b@.len(),
            None => newline_before(b@, b@.len() as int) is None,
        },
{
    let mut i: usize = b.len();
    while i > 0
        invariant
            i <= b@.len(),
            newline_before(b@, b@.len() as int) == newline_before(b@, i as int),
        decreases i,
    {
        if b[i - 1] == NEWLINE {
            return Some(i - 1);
        }
        i = i - 1;
    }
    None
}

/// Adds the current line to `out` if it is not blank, trimmed at the end.
fn emit_line(out: &mut Vec<String>, cur: &Vec<char>)
    ensures
        texts(final(out)@) == texts(old(out)@) + kept_line(cur@),
{
    let n = trimmed_len(cur);
    if n > 0 {
        let line = string_of(&prefix_of(cur, n));
        proof {
            lemma_texts_push(out@, line);
        }
        out.push(line);
    } else {
        assert(kept_line(cur@) =~= seq![]);
        assert(texts(out@) + kept_line(cur@) =~= texts(out@));
    }
}

/// The non-blank lines of `text`, each trimmed at the end.
fn split_lines(text: &Vec<char>) -> (r: Vec<String>)
    ensures
        texts(r@) == text_lines(text@),
{
    let mut out: Vec<String> = Vec::new();
    let mut cur: Vec<char> = Vec::new();
    let mut i: usize = 0;
    assert(text@.skip(0) =~= text@);
    while i < text.len()
        invariant
            i <= text@.len(),
            texts(out@) + lines_from(text@.skip(i as int), cur@) == text_lines(text@),
        decreases text.len() - i,
    {
        let c = text[i];
        let ghost t = text@.skip(i as int);
        assert(t[0] == c);
        assert(t.drop_first() =~= text@.skip(i + 1));
        if c == '\n' {
            let ghost before = texts(out@);
            let ghost old_cur = cur@;
            emit_line(&mut out, &cur);
            cur = Vec::new();
            assert(texts(out@) + lines_from(text@.skip(i + 1), cur@) =~= before + lines_from(
                t,
                old_cur,
            ));
        } else {
            cur.push(c);
        }
        i = i + 1;
    }
    assert(text@.skip(i as int) =~= Seq::<char>::empty());
    emit_line(&mut out, &cur);
    out
}

proof fn lemma_lines_bound(t: Seq<char>, cur: Seq<char>)
    ensures
        lines_from(t, cur).len() <= t.len() + (if cur.len() > 0 {
            1int
        } else {
            0int
        }),
    decreases t.len(),
{
    if t.len() == 0 {
    } else if t[0] == '\n' {
        lemma_lines_bound(t.drop_first(), seq![]);
    } else {
        lemma_lines_bound(t.drop_first(), cur.push(t[0]));
    }
}

impl SourceState {
    /// Reads afresh if the file is now shorter than what was read.
    fn reset_if_truncated(&mut self, length: u64)
        ensures
            final(self).view() == after_length(old(self).view(), length),
            final(self).name == old(self).name,
            final(self).path == old(self).path,
    {
        if length < self.offset {
            self.offset = 0;
            self.initialized = false;
            self.pending = Vec::new();
        }
    }

    /// Where to read next in a file of `length` bytes.
    fn window(&self, length: u64) -> (r: ReadWindow)
        requires
            self.initialized ==> self.offset <= length,
        ensures
            r.start == window_start(self.view(), length),
            r.count == window_count(r.start, length),
            r.start <= length,
    {
        let start = if self.initialized {
            self.offset
        } else {
            length.saturating_sub(INITIAL_READ_BYTES)
        };
        let rest = length - start;
        ReadWindow { start, count: if rest > MAX_APPEND_BYTES { MAX_APPEND_BYTES } else { rest } }
    }

    /// Takes the bytes read from a file of `length` bytes and returns the lines they complete.
    fn absorb(&mut self, length: u64, bytes: Vec<u8>) -> (r: Vec<String>)
        ensures
            final(self).view() == absorbed(old(self).view(), length, bytes@),
            texts(r@) == read_lines(old(self).view(), length, bytes@),
            r@.len() <= old(self).pending@.len() + bytes@.len(),
            final(self).name == old(self).name,
            final(self).path == old(self).path,
    {
        self.reset_if_truncated(length);
        let ghost w = self.view();
        let was_initialized = self.initialized;
        let start = if self.initialized {
            self.offset
        } else {
            length.saturating_sub(INITIAL_READ_BYTES)
        };
        assert(start == window_start(w, length));
        let n = bytes.len() as u64;
        self.offset = start.saturating_add(n);
        self.initialized = true;
        let mut bytes = bytes;
        let ghost read = bytes@;
        if !was_initialized && start > 0 {
            match first_newline(&bytes) {
                Some(i) => {
                    let tail = bytes.split_off(i + 1);
                    bytes = tail;
                    assert(bytes@ =~= read.skip(i + 1));
                },
                None => {
                    bytes = Vec::new();
                },
            }
        }
        assert(bytes@ =~= kept_bytes(w, start, read));
        let mut buffered: Vec<u8> = Vec::new();
        std::mem::swap(&mut buffered, &mut self.pending);
        buffered.append(&mut bytes);
        let ghost all = buffered@;
        assert(all == buffered_after(old(self).view(), length, read));
        let total = buffered.len();
        let k = match last_newline(&buffered) {
            Some(i) => i + 1,
            None => if buffered.len() as u64 >= MAX_APPEND_BYTES {
                buffered.len()
            } else {
                0
            },
        };
        assert(k == complete_len(all));
        let rest = buffered.split_off(k);
        self.pending = rest;
        let text = decode_lossy(buffered.as_slice());
        let chars = chars_of(text.as_str());
        let lines = split_lines(&chars);
        proof {
            lemma_lines_bound(chars@, seq![]);
            assert(buffered@ == completed_bytes(old(self).view(), length, read));
        }
        lines
    }
}

/// A log entry with the given sequence number, source name and line.
pub open spec fn entry_is(e: LogEntry, sequence: int, source: Seq<char>, line: Seq<char>) -> bool {
    &&& e.sequence == sequence
    &&& e.source@ == source
    &&& e.line@ == line
    &&& e.level == level_of(line)
}

/// The status reported for a source whose name, path and read outcome are given.
pub open spec fn status_is(s: LogSourceStatus, name: Seq<char>, path: Seq<char>, r: SourceRead) -> bool {
    &&& s.name@ == name
    &&& s.path@ == path
    &&& match r {
        SourceRead::Read { .. } => s.available && s.message is None,
        SourceRead::Failed(e) => !s.available && s.message == Some(e),
    }
}

/// The read position of a source after a poll gave `r` for it.
pub open spec fn polled_view(v: SourceView, r: SourceRead) -> SourceView {
    match r {
        SourceRead::Read { length, bytes } => absorbed(v, length, bytes@),
        SourceRead::Failed(_) => v,
    }
}

/// The lines a poll that gave `r` completes for a source.
pub open spec fn polled_lines(v: SourceView, r: SourceRead) -> Seq<Seq<char>> {
    match r {
        SourceRead::Read { length, bytes } => read_lines(v, length, bytes@),
        SourceRead::Failed(_) => seq![],
    }
}

/// The new lines of the first `n` sources, each paired with its source's name, in source
/// order.
pub open spec fn tagged_lines(
    names: Seq<Seq<char>>,
    views: Seq<SourceView>,
    reads: Seq<SourceRead>,
    n: int,
) -> Seq<(Seq<char>, Seq<char>)>
    decreases n,
{
    if n <= 0 {
        seq![]
    } else {
        tagged_lines(names, views, reads, n - 1) + polled_lines(views[n - 1], reads[n - 1]).map_values(
            |l: Seq<char>| (names[n - 1], l),
        )
    }
}

/// A bound on the lines a poll can produce from the first `n` sources: their pending bytes
/// and the bytes read.
pub open spec fn read_budget(views: Seq<SourceView>, reads: Seq<SourceRead>, n: int) -> nat
    decreases n,
{
    if n <= 0 {
        0
    } else {
        read_budget(views, reads, n - 1) + match reads[n - 1] {
            SourceRead::Read { length, bytes } => views[n - 1].pending.len() + bytes@.len(),
            SourceRead::Failed(_) => 0,
        }
    }
}

proof fn lemma_budget_grows(views: Seq<SourceView>, reads: Seq<SourceRead>, i: int, n: int)
    requires
        0 <= i <= n,
    ensures
        read_budget(views, reads, i) <= read_budget(views, reads, n),
    decreases n - i,
{
    if i < n {
        lemma_budget_grows(views, reads, i, n - 1);
    }
}

/// Calls `Path::join` and displays the result: `path` under `base`, or `path` itself when it
/// is absolute. What counts as absolute and how parts are separated depends on the platform,
/// so nothing is stated of the result.
#[verifier::external_body]
fn join_path(base: &str, path: &str) -> (r: String) {
    std::path::Path::new(base).join(path).display().to_string()
}

/// Appends one entry per line, numbering them on from `*sequence`.
fn push_entries(entries: &mut Vec<LogEntry>, sequence: &mut u64, name: &String, lines: Vec<String>)
    requires
        *old(sequence) + lines@.len() <= u64::MAX,
    ensures
        final(entries)@.len() == old(entries)@.len() + lines@.len(),
        final(entries)@.take(old(entries)@.len() as int) == old(entries)@,
        forall|k: int|
            0 <= k < lines@.len() ==> entry_is(
                #[trigger] final(entries)@[old(entries)@.len() + k],
                *old(sequence) + k + 1,
                name@,
                lines@[k]@,
            ),
        *final(sequence) == *old(sequence) + lines@.len(),
{
    let ghost start = entries@.len();
    let ghost first = *sequence;
    let ghost all = lines@;
    let total = lines.len();
    let mut rest = lines;
    let mut k: usize = 0;
    assert(all.skip(0) =~= all);
    while rest.len() > 0
        invariant
            k <= all.len(),
            total == all.len(),
            rest@ == all.skip(k as int),
            first + all.len() <= u64::MAX,
            *sequence == first + k,
            entries@.len() == start + k,
            entries@.take(start as int) == old(entries)@,
            forall|j: int|
                0 <= j < k ==> entry_is(#[trigger] entries@[start + j], first + j + 1, name@, all[j]@),
        decreases rest.len(),
    {
        let line = rest.remove(0);
        assert(line == all[k as int]);
        assert(rest@ =~= all.skip(k + 1));
        *sequence = *sequence + 1;
        let level = detect_level(line.as_str());
        let entry = LogEntry { sequence: *sequence, source: name.clone(), level, line };
        let ghost before = entries@;
        entries.push(entry);
        assert(entries@.take(start as int) =~= before.take(start as int));
        k = k + 1;
    }
}

impl LogTailer {
    /// The read positions of the sources, in configuration order.
    pub closed spec fn views(self) -> Seq<SourceView> {
        self.sources@.map_values(|s: SourceState| s.view())
    }

    /// The names of the sources.
    pub closed spec fn names(self) -> Seq<Seq<char>> {
        self.sources@.map_values(|s: SourceState| s.name@)
    }

    /// The resolved paths of the sources.
    pub closed spec fn paths(self) -> Seq<Seq<char>> {
        self.sources@.map_values(|s: SourceState| s.path@)
    }

    /// The sequence number of the last entry produced.
    pub closed spec fn last_sequence(self) -> u64 {
        self.sequence
    }

    /// The directory that relative paths were resolved from.
    pub closed spec fn base(self) -> Seq<char> {
        self.base@
    }

    /// The paths as configured, in configuration order; `paths()` holds each resolved
    /// against `base()` by `Path::join`.
    pub closed spec fn configured_paths(self) -> Seq<Seq<char>> {
        self.configured@.map_values(|p: String| p@)
    }

    /// A tailer for the configured sources, with relative paths taken from `base_directory`;
    /// nothing has been read yet.
    pub fn new(configs: &[LogConfig], base_directory: &str) -> (r: LogTailer)
        ensures
            r.names().len() == configs@.len(),
            forall|i: int| 0 <= i < configs@.len() ==> r.names()[i] == configs@[i].name@,
            r.views().len() == configs@.len(),
            forall|i: int|
                0 <= i < configs@.len() ==> r.views()[i] == (SourceView {
                    offset: 0,
                    initialized: false,
                    pending: seq![],
                }),
            r.paths().len() == configs@.len(),
            r.base() == base_directory@,
            r.configured_paths().len() == configs@.len(),
            forall|i: int| 0 <= i < configs@.len() ==> r.configured_paths()[i] == configs@[i].path@,
            r.last_sequence() == 0,
    {
        let mut sources: Vec<SourceState> = Vec::new();
        let mut configured: Vec<String> = Vec::new();
        let mut i: usize = 0;
        while i < configs.len()
            invariant
                i <= configs@.len(),
                sources@.len() == i,
                forall|j: int| 0 <= j < i ==> (#[trigger] sources@[j]).name@ == configs@[j].name@,
                configured@.len() == i,
                forall|j: int| 0 <= j < i ==> (#[trigger] configured@[j])@ == configs@[j].path@,
                forall|j: int|
                    0 <= j < i ==> (#[trigger] sources@[j]).view() == (SourceView {
                        offset: 0,
                        initialized: false,
                        pending: seq![],
                    }),
            decreases configs.len() - i,
        {
            let config = &configs[i];
            let source = SourceState {
                name: config.name.clone(),
                path: join_path(base_directory, config.path.as_str()),
                offset: 0,
                initialized: false,
                pending: Vec::new(),
            };
            assert(source.view() == (SourceView { offset: 0, initialized: false, pending: seq![] }));
            sources.push(source);
            configured.push(config.path.clone());
            i = i + 1;
        }
        let r = LogTailer { sources, sequence: 0, base: String::from_str(base_directory), configured };
        assert(r.names().len() == configs@.len());
        assert(r.configured_paths().len() == configs@.len());
        r
    }

    /// The number of sources.
    pub fn source_count(&self) -> (r: usize)
        ensures
            r == self.views().len(),
    {
        self.sources.len()
    }

    /// The file path of source `index`.
    pub fn source_path(&self, index: usize) -> (r: &str)
        requires
            index < self.views().len(),
        ensures
            r@ == self.paths()[index as int],
    {
        self.sources[index].path.as_str()
    }

    /// Takes what reading each source gave, in source order, and returns the new complete
    /// lines as entries numbered on from the last sequence number, together with each
    /// source's availability.
    pub fn poll(&mut self, reads: Vec<SourceRead>) -> (r: LogBatch)
        requires
            reads@.len() == old(self).views().len(),
            old(self).last_sequence() + read_budget(old(self).views(), reads@, reads@.len() as int)
                <= u64::MAX,
        ensures
            final(self).names() == old(self).names(),
            final(self).paths() == old(self).paths(),
            final(self).base() == old(self).base(),
            final(self).configured_paths() == old(self).configured_paths(),
            final(self).views().len() == old(self).views().len(),
            forall|i: int|
                0 <= i < reads@.len() ==> #[trigger] final(self).views()[i] == polled_view(
                    old(self).views()[i],
                    reads@[i],
                ),
            r.entries@.len() == tagged_lines(
                old(self).names(),
                old(self).views(),
                reads@,
                reads@.len() as int,
            ).len(),
            forall|k: int|
                0 <= k < r.entries@.len() ==> entry_is(
                    #[trigger] r.entries@[k],
                    old(self).last_sequence() + k + 1,
                    tagged_lines(old(self).names(), old(self).views(), reads@, reads@.len() as int)[k].0,
                    tagged_lines(old(self).names(), old(self).views(), reads@, reads@.len() as int)[k].1,
                ),
            final(self).last_sequence() == old(self).last_sequence() + r.entries@.len(),
            forall|k: int| 0 <= k < r.entries@.len() ==> whole_line(#[trigger] r.entries@[k].line@),
            numbered_from(r.entries@, old(self).last_sequence() as int),
            r.sources@.len() == reads@.len(),
            forall|i: int|
                0 <= i < reads@.len() ==> status_is(
                    #[trigger] r.sources@[i],
                    old(self).names()[i],
                    old(self).paths()[i],
                    reads@[i],
                ),
    {
        let ghost names = self.names();
        let ghost views = self.views();
        let ghost paths = self.paths();
        let ghost first = self.sequence;
        let ghost n = reads@.len() as int;
        let ghost all_reads = reads@;
        let total = reads.len();
        let mut waiting: Vec<SourceState> = Vec::new();
        std::mem::swap(&mut waiting, &mut self.sources);
        let ghost orig = waiting@;
        let mut done: Vec<SourceState> = Vec::new();
        let mut rest = reads;
        let mut entries: Vec<LogEntry> = Vec::new();
        let mut statuses: Vec<LogSourceStatus> = Vec::new();
        let mut sequence = self.sequence;
        let mut i: usize = 0;
        assert(all_reads.skip(0) =~= all_reads);
        assert(orig.skip(0) =~= orig);
        while rest.len() > 0
            invariant
                n == all_reads.len(),
                total == n,
                orig.len() == n,
                i <= n,
                rest@ == all_reads.skip(i as int),
                waiting@ == orig.skip(i as int),
                views == orig.map_values(|s: SourceState| s.view()),
                names == orig.map_values(|s: SourceState| s.name@),
                paths == orig.map_values(|s: SourceState| s.path@),
                first + read_budget(views, all_reads, n) <= u64::MAX,
                done@.len() == i,
                forall|j: int|
                    0 <= j < i ==> (#[trigger] done@[j]).view() == polled_view(views[j], all_reads[j]),
                forall|j: int| 0 <= j < i ==> (#[trigger] done@[j]).name@ == names[j],
                forall|j: int| 0 <= j < i ==> (#[trigger] done@[j]).path@ == paths[j],
                entries@.len() == tagged_lines(names, views, all_reads, i as int).len(),
                tagged_lines(names, views, all_reads, i as int).len() <= read_budget(
                    views,
                    all_reads,
                    i as int,
                ),
                forall|k: int|
                    0 <= k < entries@.len() ==> entry_is(
                        #[trigger] entries@[k],
                        first + k + 1,
                        tagged_lines(names, views, all_reads, i as int)[k].0,
                        tagged_lines(names, views, all_reads, i as int)[k].1,
                    ),
                sequence == first + entries@.len(),
                statuses@.len() == i,
                forall|j: int|
                    0 <= j < i ==> status_is(
                        #[trigger] statuses@[j],
                        names[j],
                        paths[j],
                        all_reads[j],
                    ),
            decreases rest.len(),
        {
            let read = rest.remove(0);
            assert(read == all_reads[i as int]);
            assert(rest@ =~= all_reads.skip(i + 1));
            let mut source = waiting.remove(0);
            assert(source == orig[i as int]);
            assert(waiting@ =~= orig.skip(i + 1));
            assert(source.view() == views[i as int]);
            assert(source.name@ == names[i as int]);
            assert(source.path@ == paths[i as int]);
            let ghost before_entries = entries@;
            let ghost t0 = tagged_lines(names, views, all_reads, i as int);
            let ghost t1 = tagged_lines(names, views, all_reads, i + 1);
            proof {
                lemma_budget_grows(views, all_reads, i + 1, n);
            }
            match read {
                SourceRead::Read { length, bytes } => {
                    let lines = source.absorb(length, bytes);
                    let ghost lv = lines@;
                    assert(t1 == t0 + texts(lv).map_values(|l: Seq<char>| (names[i as int], l)));
                    push_entries(&mut entries, &mut sequence, &source.name, lines);
                    assert forall|k: int| 0 <= k < entries@.len() implies entry_is(
                        #[trigger] entries@[k],
                        first + k + 1,
                        t1[k].0,
                        t1[k].1,
                    ) by {
                        if k < before_entries.len() {
                            assert(entries@[k] == entries@.take(before_entries.len() as int)[k]);
                            assert(t1[k] == t0[k]);
                        } else {
                            let j = k - before_entries.len();
                            assert(entries@[before_entries.len() + j] == entries@[k]);
                            assert(t1[k] == (names[i as int], texts(lv)[j]));
                        }
                    }
                    let status = LogSourceStatus {
                        name: source.name.clone(),
                        path: source.path.clone(),
                        available: true,
                        message: None,
                    };
                    statuses.push(status);
                },
                SourceRead::Failed(message) => {
                    assert(t1 =~= t0);
                    let status = LogSourceStatus {
                        name: source.name.clone(),
                        path: source.path.clone(),
                        available: false,
                        message: Some(message),
                    };
                    statuses.push(status);
                },
            }
            done.push(source);
            i = i + 1;
        }
        self.sources = done;
        self.sequence = sequence;
        proof {
            assert(self.names() =~= names);
            assert(self.paths() =~= paths);
            lemma_tagged_whole(names, views, all_reads, n);
        }
        LogBatch { entries, sources: statuses }
    }

    /// Whether `poll` can number every line that `reads` may complete without running out
    /// of sequence numbers.
    pub fn fits(&self, reads: &Vec<SourceRead>) -> (r: bool)
        requires
            reads@.len() == self.views().len(),
        ensures
            r == (self.last_sequence() + read_budget(self.views(), reads@, reads@.len() as int)
                <= u64::MAX),
    {
        let ghost views = self.views();
        let mut total: u128 = self.sequence as u128;
        let mut i: usize = 0;
        while i < reads.len()
            invariant
                reads@.len() == self.sources@.len(),
                views == self.views(),
                i <= reads@.len(),
                total == self.sequence + read_budget(views, reads@, i as int),
                total <= u64::MAX,
            decreases reads@.len() - i,
        {
            let step: u128 = match &reads[i] {
                SourceRead::Read { length, bytes } => {
                    assert(views[i as int].pending == self.sources@[i as int].pending@);
                    (self.sources[i].pending.len() as u128) + (bytes.len() as u128)
                },
                SourceRead::Failed(_) => 0,
            };
            total = total + step;
            i = i + 1;
            if total > u64::MAX as u128 {
                proof {
                    lemma_budget_grows(views, reads@, i as int, reads@.len() as int);
                }
                return false;
            }
        }
        true
    }

    /// Where to read source `index` now that its file is known to hold `length` bytes. A
    /// file shorter than what was read before is read afresh.
    pub fn begin_read(&mut self, index: usize, length: u64) -> (r: ReadWindow)
        requires
            index < old(self).views().len(),
        ensures
            final(self).views() == old(self).views().update(
                index as int,
                after_length(old(self).views()[index as int], length),
            ),
            final(self).names() == old(self).names(),
            final(self).paths() == old(self).paths(),
            final(self).base() == old(self).base(),
            final(self).configured_paths() == old(self).configured_paths(),
            final(self).last_sequence() == old(self).last_sequence(),
            r.start == window_start(final(self).views()[index as int], length),
            r.count == window_count(r.start, length),
            r.start <= length,
    {
        let mut source = self.sources.remove(index);
        source.reset_if_truncated(length);
        let window = source.window(length);
        let ghost before = self.sources@;
        self.sources.insert(index, source);
        proof {
            assert(self.views() =~= old(self).views().update(
                index as int,
                after_length(old(self).views()[index as int], length),
            ));
            assert(self.names() =~= old(self).names());
            assert(self.paths() =~= old(self).paths());
        }
        window
    }
}

/// Trimming keeps a prefix, and what it keeps does not end in white space.
proof fn lemma_trim_end_shape(s: Seq<char>)
    ensures
        trim_end(s).len() <= s.len(),
        trim_end(s) == s.take(trim_end(s).len() as int),
        trim_end(s).len() > 0 ==> !is_space(trim_end(s).last()),
    decreases s.len(),
{
    if s.len() > 0 && is_space(s.last()) {
        lemma_trim_end_shape(s.drop_last());
        assert(s.drop_last().take(trim_end(s).len() as int) =~= s.take(trim_end(s).len() as int));
    } else {
        assert(s.take(s.len() as int) =~= s);
    }
}

/// The lines found in `t`, after a current line `cur` without a line feed, are whole.
proof fn lemma_lines_whole(t: Seq<char>, cur: Seq<char>)
    requires
        forall|i: int| 0 <= i < cur.len() ==> cur[i] != '\n',
    ensures
        forall|k: int| 0 <= k < lines_from(t, cur).len() ==> whole_line(#[trigger] lines_from(t, cur)[k]),
    decreases t.len(),
{
    lemma_trim_end_shape(cur);
    let kept = kept_line(cur);
    assert forall|k: int| 0 <= k < kept.len() implies whole_line(#[trigger] kept[k]) by {
        let l = trim_end(cur);
        assert(kept[k] == l);
        assert forall|i: int| 0 <= i < l.len() implies l[i] != '\n' by {
            assert(l[i] == cur.take(l.len() as int)[i]);
            assert(cur.take(l.len() as int)[i] == cur[i]);
        }
    }
    if t.len() > 0 {
        if t[0] == '\n' {
            lemma_lines_whole(t.drop_first(), seq![]);
            let rest = lines_from(t.drop_first(), seq![]);
            assert(lines_from(t, cur) == kept + rest);
            assert forall|k: int| 0 <= k < (kept + rest).len() implies whole_line(#[trigger] (kept + rest)[k]) by {
                if k >= kept.len() {
                    assert((kept + rest)[k] == rest[k - kept.len()]);
                }
            }
        } else {
            let next = cur.push(t[0]);
            assert forall|i: int| 0 <= i < next.len() implies next[i] != '\n' by {
                if i < cur.len() {
                    assert(next[i] == cur[i]);
                }
            }
            lemma_lines_whole(t.drop_first(), next);
            assert(lines_from(t, cur) == lines_from(t.drop_first(), next));
        }
    } else {
        assert(lines_from(t, cur) == kept);
    }
}

/// Every line of the first `n` sources of a poll is whole.
proof fn lemma_tagged_whole(
    names: Seq<Seq<char>>,
    views: Seq<SourceView>,
    reads: Seq<SourceRead>,
    n: int,
)
    ensures
        forall|k: int|
            0 <= k < tagged_lines(names, views, reads, n).len() ==> whole_line(
                #[trigger] tagged_lines(names, views, reads, n)[k].1,
            ),
    decreases n,
{
    if n > 0 {
        lemma_tagged_whole(names, views, reads, n - 1);
        let before = tagged_lines(names, views, reads, n - 1);
        let lines = polled_lines(views[n - 1], reads[n - 1]);
        match reads[n - 1] {
            SourceRead::Read { length, bytes } => {
                lemma_lines_whole(lossy_utf8(completed_bytes(views[n - 1], length, bytes@)), seq![]);
            },
            SourceRead::Failed(_) => {},
        }
        let added = lines.map_values(|l: Seq<char>| (names[n - 1], l));
        let all = tagged_lines(names, views, reads, n);
        assert(all == before + added);
        assert forall|k: int| 0 <= k < all.len() implies whole_line(#[trigger] all[k].1) by {
            if k >= before.len() {
                assert(all[k] == added[k - before.len()]);
                assert(added[k - before.len()].1 == lines[k - before.len()]);
            }
        }
    }
}

/// No byte of `content` from `a` up to `b` is a line feed.
pub open spec fn newline_free(content: Seq<u8>, a: int, b: int) -> bool {
    forall|j: int| a <= j < b ==> content[j] != NEWLINE
}

/// Every run of bytes without a line feed in `content` is shorter than `MAX_APPEND_BYTES`:
/// the file has no line of that length or more.
pub open spec fn lines_below_limit(content: Seq<u8>) -> bool {
    forall|a: int, b: int|
        0 <= a <= b <= content.len() && #[trigger] newline_free(content, a, b) ==> b - a
            < MAX_APPEND_BYTES
}

/// The file holds successive prefixes of `content` at a run of polls, of the lengths
/// `lengths`: at most `INITIAL_READ_BYTES` at the first poll, and afterwards only growing by
/// appends, by at most `MAX_APPEND_BYTES` between two polls.
pub open spec fn appended_run(content: Seq<u8>, lengths: Seq<u64>) -> bool {
    &&& lengths.len() > 0
    &&& lengths[0] <= INITIAL_READ_BYTES
    &&& forall|i: int| 0 <= i < lengths.len() ==> #[trigger] lengths[i] <= content.len()
    &&& forall|i: int|
        0 < i < lengths.len() ==> lengths[i - 1] <= #[trigger] lengths[i] <= lengths[i - 1]
            + MAX_APPEND_BYTES
}

/// The bytes a poll reads when the file holds the first `length` bytes of `content`: the
/// window that `begin_read` gives.
pub open spec fn window_bytes(content: Seq<u8>, v: SourceView, length: u64) -> Seq<u8> {
    let start = window_start(after_length(v, length), length);
    content.subrange(start as int, start + window_count(start, length))
}

/// The read position of a new source after the first `n` polls of a run.
pub open spec fn view_after_polls(content: Seq<u8>, lengths: Seq<u64>, n: nat) -> SourceView
    decreases n,
{
    if n == 0 {
        SourceView { offset: 0, initialized: false, pending: seq![] }
    } else {
        let v = view_after_polls(content, lengths, (n - 1) as nat);
        absorbed(v, lengths[n - 1], window_bytes(content, v, lengths[n - 1]))
    }
}

/// The bytes of complete lines that the first `n` polls of a run hand out, in order.
pub open spec fn bytes_handed_out(content: Seq<u8>, lengths: Seq<u64>, n: nat) -> Seq<u8>
    decreases n,
{
    if n == 0 {
        seq![]
    } else {
        let v = view_after_polls(content, lengths, (n - 1) as nat);
        bytes_handed_out(content, lengths, (n - 1) as nat) + completed_bytes(
            v,
            lengths[n - 1],
            window_bytes(content, v, lengths[n - 1]),
        )
    }
}

/// Law: for a file that starts at most `INITIAL_READ_BYTES` long, then only grows by appends
/// (each at most `MAX_APPEND_BYTES` between polls) and has no line of `MAX_APPEND_BYTES` or
/// more, the polls hand out every byte of the file up to its last line feed, in order, each
/// once, and nothing after it: what they handed out, followed by what waits, is the file as
/// read, what waits holds no line feed, and what was handed out ends with a line feed. (The
/// lines of an entry are those of what is handed out, decoded as `lossy_utf8`.)
#[verifier::spinoff_prover]
#[verifier::rlimit(60)]
pub proof fn appended_bytes_arrive_once(content: Seq<u8>, lengths: Seq<u64>, n: nat)
    requires
        appended_run(content, lengths),
        lines_below_limit(content),
        1 <= n <= lengths.len(),
    ensures
        view_after_polls(content, lengths, n).offset == lengths[n - 1],
        view_after_polls(content, lengths, n).initialized,
        bytes_handed_out(content, lengths, n) + view_after_polls(content, lengths, n).pending
            == content.take(lengths[n - 1] as int),
        forall|q: int|
            0 <= q < view_after_polls(content, lengths, n).pending.len() ==> view_after_polls(
                content,
                lengths,
                n,
            ).pending[q] != NEWLINE,
        bytes_handed_out(content, lengths, n).len() == 0 || bytes_handed_out(
            content,
            lengths,
            n,
        ).last() == NEWLINE,
    decreases n,
{
    let m = (n - 1) as nat;
    let v = view_after_polls(content, lengths, m);
    let handed = bytes_handed_out(content, lengths, m);
    let before: int = if m == 0 {
        0
    } else {
        lengths[m - 1] as int
    };
    if m > 0 {
        appended_bytes_arrive_once(content, lengths, m);
        assert(lengths[m - 1] <= lengths[n - 1] <= lengths[m - 1] + MAX_APPEND_BYTES);
    } else {
        assert(content.take(0) =~= handed + v.pending);
    }
    let length = lengths[n - 1];
    assert(length <= content.len());
    assert(handed + v.pending == content.take(before));
    assert(after_length(v, length) == v);
    let start = window_start(v, length);
    assert(start == before);
    let bytes = window_bytes(content, v, length);
    assert(bytes =~= content.subrange(before, length as int));
    let b = buffered_after(v, length, bytes);
    assert(b == v.pending + bytes);
    assert(handed + b =~= content.take(length as int));
    assert(b =~= content.subrange(handed.len() as int, length as int)) by {
        assert forall|j: int| 0 <= j < b.len() implies b[j] == content[handed.len() + j] by {
            assert((handed + b)[handed.len() + j] == b[j]);
        }
    }
    lemma_newline_before(b, b.len() as int);
    match newline_before(b, b.len() as int) {
        Some(i) => {
            assert(complete_len(b) == i + 1);
        },
        None => {
            assert(newline_free(content, handed.len() as int, length as int)) by {
                assert forall|j: int| handed.len() <= j < length implies content[j] != NEWLINE by {
                    assert(b[j - handed.len()] == content[j]);
                }
            }
            assert(complete_len(b) == 0);
        },
    }
    let k = complete_len(b) as int;
    let done = b.take(k);
    assert(done == completed_bytes(v, length, bytes));
    assert(bytes_handed_out(content, lengths, n) == handed + done);
    let next = view_after_polls(content, lengths, n);
    assert(next.pending == b.skip(k));
    assert(handed + done + b.skip(k) =~= handed + b);
    pending_holds_no_newline(v, length, bytes);
    if k > 0 {
        assert((handed + done).last() == b[k - 1]);
    }
}

/// The entries are numbered on from `last`, one by one.
pub open spec fn numbered_from(entries: Seq<LogEntry>, last: int) -> bool {
    forall|k: int| 0 <= k < entries.len() ==> #[trigger] entries[k].sequence == last + k + 1
}

/// The batches' entries one after another.
pub open spec fn all_entries(batches: Seq<Seq<LogEntry>>) -> Seq<LogEntry>
    decreases batches.len(),
{
    if batches.len() == 0 {
        seq![]
    } else {
        all_entries(batches.drop_last()) + batches.last()
    }
}

/// Law: polls that each number their entries on from the last number before them (as `poll`
/// does, starting from a new tailer's zero) number all entries 1, 2, 3, ... without gap or
/// repeat. `lasts[i]` is the last number before batch `i`.
pub proof fn entries_are_numbered_consecutively(batches: Seq<Seq<LogEntry>>, lasts: Seq<int>)
    requires
        lasts.len() == batches.len() + 1,
        lasts[0] == 0,
        forall|i: int| 0 <= i < batches.len() ==> numbered_from(#[trigger] batches[i], lasts[i]),
        forall|i: int| 0 <= i < batches.len() ==> lasts[i + 1] == lasts[i] + (#[trigger] batches[i]).len(),
    ensures
        numbered_from(all_entries(batches), 0),
        all_entries(batches).len() == lasts[batches.len() as int],
    decreases batches.len(),
{
    if batches.len() > 0 {
        let n = batches.len() - 1;
        let earlier = batches.drop_last();
        let earlier_lasts = lasts.drop_last();
        assert forall|i: int| 0 <= i < earlier.len() implies numbered_from(#[trigger] earlier[i], earlier_lasts[i]) by {
            assert(earlier[i] == batches[i]);
        }
        assert forall|i: int| 0 <= i < earlier.len() implies earlier_lasts[i + 1] == earlier_lasts[i] + (#[trigger] earlier[i]).len() by {
            assert(earlier[i] == batches[i]);
        }
        entries_are_numbered_consecutively(earlier, earlier_lasts);
        let before = all_entries(earlier);
        let last = batches.last();
        assert(numbered_from(batches[n], lasts[n]));
        assert(lasts[n + 1] == lasts[n] + batches[n].len());
        let all = all_entries(batches);
        assert(all == before + last);
        assert forall|k: int| 0 <= k < all.len() implies #[trigger] all[k].sequence == k + 1 by {
            if k < before.len() {
                assert(all[k] == before[k]);
            } else {
                assert(all[k] == last[k - before.len()]);
            }
        }
    }
}

proof fn lemma_newline_before(b: Seq<u8>, i: int)
    requires
        0 <= i <= b.len(),
    ensures
        match newline_before(b, i) {
            Some(p) => 0 <= p < i && b[p] == NEWLINE && forall|q: int| p < q < i ==> b[q] != NEWLINE,
            None => forall|q: int| 0 <= q < i ==> b[q] != NEWLINE,
        },
    decreases i,
{
    if i > 0 && b[i - 1] != NEWLINE {
        lemma_newline_before(b, i - 1);
    }
}

/// Law: bytes are neither lost nor repeated. Once a source has been read, the complete
/// lines handed out and the new pending part are exactly the old pending part followed by
/// the bytes just read.
pub proof fn read_keeps_every_byte(v: SourceView, length: u64, bytes: Seq<u8>)
    requires
        v.initialized,
        v.offset <= length,
    ensures
        completed_bytes(v, length, bytes) + absorbed(v, length, bytes).pending == v.pending + bytes,
{
    let b = buffered_after(v, length, bytes);
    assert(b == v.pending + bytes);
    assert(b.take(complete_len(b) as int) + b.skip(complete_len(b) as int) =~= b) by {
        lemma_newline_before(b, b.len() as int);
    }
}

/// Law: what stays pending never holds a line feed, so a line is handed out as soon as its
/// line feed has been read, and a partial line waits for it.
pub proof fn pending_holds_no_newline(v: SourceView, length: u64, bytes: Seq<u8>)
    ensures
        forall|q: int|
            0 <= q < absorbed(v, length, bytes).pending.len() ==> absorbed(v, length, bytes).pending[q]
                != NEWLINE,
{
    let b = buffered_after(v, length, bytes);
    lemma_newline_before(b, b.len() as int);
    let k = complete_len(b) as int;
    assert forall|q: int| 0 <= q < b.skip(k).len() implies b.skip(k)[q] != NEWLINE by {
        assert(b.skip(k)[q] == b[k + q]);
    }
}

/// Law: a source that has been read continues exactly where the last read ended, and the
/// read position then advances by the number of bytes read.
pub proof fn reading_continues_where_it_stopped(v: SourceView, length: u64, bytes: Seq<u8>)
    requires
        v.initialized,
        v.offset <= length,
        v.offset + bytes.len() <= u64::MAX,
    ensures
        window_start(after_length(v, length), length) == v.offset,
        absorbed(v, length, bytes).offset == v.offset + bytes.len(),
        absorbed(v, length, bytes).initialized,
{
}

/// Law: a file that became shorter than what was read (truncated or replaced) is read
/// afresh: nothing pending is kept and reading starts at most `INITIAL_READ_BYTES` before
/// its end.
pub proof fn truncation_restarts_the_source(v: SourceView, length: u64)
    requires
        length < v.offset,
    ensures
        after_length(v, length).pending.len() == 0,
        !after_length(v, length).initialized,
        window_start(after_length(v, length), length) == (if length > INITIAL_READ_BYTES {
            length - INITIAL_READ_BYTES
        } else {
            0
        }),
{
}

/// Law: a line that mentions an error is an error, whatever else it mentions; a line that
/// mentions none of the level words is of unknown level.
pub proof fn error_words_take_precedence(line: Seq<char>)
    ensures
        has_part(ascii_uppercase(line), "FATAL"@) ==> level_of(line) == LogLevel::Error,
        has_part(ascii_uppercase(line), "ERROR"@) ==> level_of(line) == LogLevel::Error,
        !has_part(ascii_uppercase(line), "ERROR"@) && !has_part(ascii_uppercase(line), "FATAL"@)
            && !has_part(ascii_uppercase(line), "WARN"@) && !has_part(ascii_uppercase(line), "INFO"@)
            && !has_part(ascii_uppercase(line), "DEBUG"@) && !has_part(
            ascii_uppercase(line),
            "TRACE"@,
        ) ==> level_of(line) == LogLevel::Unknown,
{
}

} // verus!
