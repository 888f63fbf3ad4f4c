//! Log records: what to log, under which target and level, and how a line of
//! the log file reads.
use vstd::prelude::*;
use vstd::string::*;

verus! {

/// Severity of a log record.
#[derive(Clone, Copy, Debug, PartialEq, Eq, Structural)]
pub enum LogLevel {
    Error,
    Warn,
    Info,
}

/// A message to log under a target.
#[derive(Debug)]
pub struct LogRecord {
    pub level: LogLevel,
    pub target: String,
    pub message: String,
}

fn record(level: LogLevel, target: &str, message: &str) -> (r: LogRecord)
    ensures
        r.level == level,
        r.target@ == target@,
        r.message@ == message@,
{
    LogRecord { level, target: target.to_owned(), message: message.to_owned() }
}

/// An informational record.
pub fn log_info(target: &str, message: &str) -> (r: LogRecord)
    ensures
        r.level == LogLevel::Info,
        r.target@ == target@,
        r.message@ == message@,
{
    record(LogLevel::Info, target, message)
}

/// A warning record.
pub fn log_warn(target: &str, message: &str) -> (r: LogRecord)
    ensures
        r.level == LogLevel::Warn,
        r.target@ == target@,
        r.message@ == message@,
{
    record(LogLevel::Warn, target, message)
}

/// An error record.
pub fn log_error(target: &str, message: &str) -> (r: LogRecord)
    ensures
        r.level == LogLevel::Error,
        r.target@ == target@,
        r.message@ == message@,
{
    record(LogLevel::Error, target, message)
}

/// An informational record under the `runtime` target.
pub fn log_line(message: &str) -> (r: LogRecord)
    ensures
        r.level == LogLevel::Info,
        r.target@ == "runtime"@,
        r.message@ == message@,
{
    log_info("runtime", message)
}

/// The text of the start-up banner: `<name> v<version> (git <hash>)`, with
/// `unknown` when the build recorded no commit.
pub open spec fn banner_text(name: Seq<char>, version: Seq<char>, git_hash: Seq<char>) -> Seq<
    char,
> {
    name + " v"@ + version + " (git "@ + git_hash + ")"@
}

/// The start-up banner under the `runtime` target.
pub fn log_runtime_banner(name: &str, version: &str, git_hash: Option<&str>) -> (r: LogRecord)
    ensures
        r.level == LogLevel::Info,
        r.target@ == "runtime"@,
        r.message@ == banner_text(
            name@,
            version@,
            match git_hash {
                Some(h) => h@,
                None => "unknown"@,
            },
        ),
{
    let hash = match git_hash {
        Some(h) => h,
        None => "unknown",
    };
    let mut message = String::new();
    message.append(name);
    message.append(" v");
    message.append(version);
    message.append(" (git ");
    message.append(hash);
    message.append(")");
    assert(message@ =~= banner_text(name@, version@, hash@));
    LogRecord { level: LogLevel::Info, target: "runtime".to_owned(), message }
}

/// A line of the log file: `[<time>][<LEVEL>][<target>] <message>`.
pub open spec fn log_entry_text(
    timestamp: Seq<char>,
    level: Seq<char>,
    target: Seq<char>,
    message: Seq<char>,
) -> Seq<char> {
    "["@ + timestamp + "]["@ + level + "]["@ + target + "] "@ + message
}

/// Formats a line of the log file.
pub fn format_log_entry(timestamp: &str, level: &str, target: &str, message: &str) -> (r: String)
    ensures
        r@ == log_entry_text(timestamp@, level@, target@, message@),
{
    let mut r = String::new();
    r.append("[");
    r.append(timestamp);
    r.append("][");
    r.append(level);
    r.append("][");
    r.append(target);
    r.append("] ");
    r.append(message);
    assert(r@ =~= log_entry_text(timestamp@, level@, target@, message@));
    r
}

} // verus!
