//! Structured log records: one JSON object per line.
use vstd::prelude::*;
use vstd::string::StringExecFns;
use crate::sync::{Mutex, MutexGuard};

verus! {

/// The JSON string literal for `s`: quotes around it, special characters escaped.
pub uninterp spec fn json_quoted(s: Seq<char>) -> Seq<char>;

/// Relies on `serde_json::to_string` on a string slice: it writes the string as
/// a JSON string literal, and writing into memory cannot fail.
#[verifier::external_body]
fn json_string(s: &str) -> (r: String)
    ensures
        r@ == json_quoted(s@),
{
    match serde_json::to_string(s) {
        Ok(j) => j,
        Err(_) => String::new(),
    }
}

/// The severity of a log record, lowest first.
#[allow(non_camel_case_types, clippy::upper_case_acronyms)]
#[derive(Clone, Copy, Debug, PartialEq, Eq, Structural)]
pub enum Level {
    DEBUG,
    INFO,
    WARNING,
    ERROR,
    CRITICAL,
}

impl Level {
    pub open spec fn rank(self) -> int {
        match self {
            Level::DEBUG => 0,
            Level::INFO => 1,
            Level::WARNING => 2,
            Level::ERROR => 3,
            Level::CRITICAL => 4,
        }
    }

    pub open spec fn name(self) -> Seq<char> {
        match self {
            Level::DEBUG => "DEBUG"@,
            Level::INFO => "INFO"@,
            Level::WARNING => "WARNING"@,
            Level::ERROR => "ERROR"@,
            Level::CRITICAL => "CRITICAL"@,
        }
    }

    /// The level's name as it appears in a record.
    pub fn as_str(self) -> (r: &'static str)
        ensures
            r@ == self.name(),
    {
        match self {
            Level::DEBUG => "DEBUG",
            Level::INFO => "INFO",
            Level::WARNING => "WARNING",
            Level::ERROR => "ERROR",
            Level::CRITICAL => "CRITICAL",
        }
    }

    /// Whether a record at this level passes a sink that drops levels below `threshold`.
    pub fn enabled(self, threshold: Level) -> (r: bool)
        ensures
            r == (self.rank() >= threshold.rank()),
    {
        self.as_rank() >= threshold.as_rank()
    }

    fn as_rank(self) -> (r: u8)
        ensures
            r == self.rank(),
    {
        match self {
            Level::DEBUG => 0,
            Level::INFO => 1,
            Level::WARNING => 2,
            Level::ERROR => 3,
            Level::CRITICAL => 4,
        }
    }
}

/// The text of a log record.
pub open spec fn log_record(level: Level, message: Seq<char>, line: Seq<char>) -> Seq<char> {
    "{\"type\":\"log\",\"level\":\""@ + level.name() + "\",\"message\":"@ + json_quoted(message)
        + ",\"line\":"@ + json_quoted(line) + "}"@
}

/// The text of a log record without a source line.
pub open spec fn plain_log_record(level: Level, message: Seq<char>) -> Seq<char> {
    "{\"type\":\"log\",\"level\":\""@ + level.name() + "\",\"message\":"@ + json_quoted(message)
        + "}"@
}

/// The text of an assertion record.
pub open spec fn assertion_record(expression: Seq<char>, line: Seq<char>, result: bool) -> Seq<
    char,
> {
    "{\"type\":\"assertion\",\"message\":"@ + json_quoted(expression)
        + ",\"level\":\"CRITICAL\",\"line\":"@ + json_quoted(line) + ",\"assertion_result\":"@ + (
    if result {
        "true"@
    } else {
        "false"@
    }) + "}"@
}

/// `text`, followed by a line break when `terminate` holds.
pub open spec fn terminated(text: Seq<char>, terminate: bool) -> Seq<char> {
    if terminate {
        text + "\n"@
    } else {
        text
    }
}

fn finish(out: String, terminate_new_line: bool) -> (r: String)
    ensures
        r@ == terminated(out@, terminate_new_line),
{
    if terminate_new_line {
        out.concat("\n")
    } else {
        out
    }
}

/// A log record: its kind, level name, message and source line.
pub struct LogEntry {
    pub log_type: &'static str,
    pub level: String,
    pub message: String,
    pub line: String,
}

impl LogEntry {
    pub fn new(level: Level, message: &String, line: &String) -> (r: Self)
        ensures
            r.log_type@ == "log"@,
            r.level@ == level.name(),
            r.message@ == message@,
            r.line@ == line@,
    {
        LogEntry {
            log_type: "log",
            level: String::from_str(level.as_str()),
            message: message.clone(),
            line: line.clone(),
        }
    }
}

/// The record for `message` from source position `line`, as one JSON object.
pub fn format_log_string_to_json(
    message: &String,
    line: &String,
    terminate_new_line: bool,
    level: Level,
) -> (r: String)
    ensures
        r@ == terminated(log_record(level, message@, line@), terminate_new_line),
{
    let entry = LogEntry::new(level, message, line);
    let out = String::from_str("{\"type\":\"log\",\"level\":\"");
    let out = out.concat(entry.level.as_str());
    let out = out.concat("\",\"message\":");
    let out = out.concat(json_string(entry.message.as_str()).as_str());
    let out = out.concat(",\"line\":");
    let out = out.concat(json_string(entry.line.as_str()).as_str());
    let out = out.concat("}");
    finish(out, terminate_new_line)
}

/// The record for `s` at `level`, without a source position.
pub fn get_json_string(s: &String, terminate_new_line: bool, level: Level) -> (r: String)
    ensures
        r@ == terminated(plain_log_record(level, s@), terminate_new_line),
{
    let out = String::from_str("{\"type\":\"log\",\"level\":\"");
    let out = out.concat(level.as_str());
    let out = out.concat("\",\"message\":");
    let out = out.concat(json_string(s.as_str()).as_str());
    let out = out.concat("}");
    finish(out, terminate_new_line)
}

/// The record of a checked test assertion: its expression text, source
/// position and outcome.
pub fn get_json_test_assertion_string(
    s: &str,
    terminate_new_line: bool,
    line: String,
    assert_result: bool,
) -> (r: String)
    ensures
        r@ == terminated(assertion_record(s@, line@, assert_result), terminate_new_line),
{
    let out = String::from_str("{\"type\":\"assertion\",\"message\":");
    let out = out.concat(json_string(s).as_str());
    let out = out.concat(",\"level\":\"CRITICAL\",\"line\":");
    let out = out.concat(json_string(line.as_str()).as_str());
    let out = out.concat(",\"assertion_result\":");
    let out = if assert_result {
        out.concat("true")
    } else {
        out.concat("false")
    };
    let out = out.concat("}");
    finish(out, terminate_new_line)
}

/// A log sink: a writer behind a lock, so that records from different
/// processors never interleave.
pub struct TmkLogger<T> {
    pub writter: T,
}

impl<T> TmkLogger<Mutex<T>> {
    pub fn new(provider: T) -> (r: Self)
        ensures
            forall|v: T| r.writter.inv(v),
    {
        TmkLogger { writter: Mutex::new(provider) }
    }

    /// Takes the writer's lock; hand the guard back with `self.writter.unlock`.
    pub fn get_writter(&self) -> (r: MutexGuard<'_, T>)
        ensures
            self.writter.owns(r),
            self.writter.inv(r@),
    {
        self.writter.lock()
    }
}

} // verus!
