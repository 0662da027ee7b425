//! Desktop log lines.
//!
//! The library composes every line the desktop logger emits -- a bracketed
//! timestamp, a level, and the message -- and normalizes the level names the
//! frontend may send. Reading the clock is outside work with no promisable
//! value; appending to the log file is done by the caller.

use vstd::prelude::*;

use crate::decimal::{dec_seq, u16_to_decimal};
use crate::paths::{join_path, spec_joined};

verus! {

/// A log line: `[{timestamp}] {level} - {message}`.
pub open spec fn spec_log_line(
    timestamp: Seq<char>,
    level: Seq<char>,
    message: Seq<char>,
) -> Seq<char> {
    "["@ + timestamp + "] "@ + level + " - "@ + message
}

/// Compose a log line from its three parts.
pub fn format_log_line(timestamp: &str, level: &str, message: &str) -> (r: String)
    ensures
        r@ == spec_log_line(timestamp@, level@, message@),
{
    let mut r = String::new();
    r.append("[");
    r.append(timestamp);
    r.append("] ");
    r.append(level);
    r.append(" - ");
    r.append(message);
    proof {
        assert(r@ =~= spec_log_line(timestamp@, level@, message@));
    }
    r
}

/// Relies on chrono::Local::now: the local wall-clock time, rendered as
/// `YYYY-MM-DD hh:mm:ss`. The value depends on the clock; nothing is
/// promised about it.
#[verifier::external_body]
fn now_timestamp() -> (r: String)
{
    chrono::Local::now().format("%Y-%m-%d %H:%M:%S").to_string()
}

/// The level a frontend-supplied level name dispatches at: one of the four
/// known names stays itself, anything else is logged as `info`.
pub open spec fn spec_canonical_level(level: Seq<char>) -> Seq<char> {
    if level == "debug"@ || level == "info"@ || level == "warn"@ || level == "error"@ {
        level
    } else {
        "info"@
    }
}

/// Whether two string slices hold the same characters.
fn str_eq(a: &str, b: &str) -> (r: bool)
    ensures
        r == (a@ == b@),
{
    let owned_a = a.to_owned();
    let owned_b = b.to_owned();
    owned_a == owned_b
}

/// Normalize a frontend-supplied message for dispatch: the level it must be
/// logged at (unknown names fall back to `info`) and the message unchanged.
pub fn log_message(level: &str, message: &str) -> (r: (String, String))
    ensures
        r.0@ == spec_canonical_level(level@),
        r.1@ == message@,
{
    let canonical = if str_eq(level, "debug") || str_eq(level, "info") || str_eq(level, "warn")
        || str_eq(level, "error") {
        level.to_owned()
    } else {
        "info".to_owned()
    };
    (canonical, message.to_owned())
}

/// The desktop logger: it knows the log file every line is appended to and
/// composes the lines for the application's lifecycle events. The caller
/// appends each returned line to the file and echoes it to the console log.
pub struct DesktopLogger {
    pub log_file: Option<String>,
}

impl DesktopLogger {
    /// A logger writing `jterm.log` inside the platform's log directory.
    pub fn new(log_dir: &str) -> (l: Self)
        ensures
            l.log_file matches Some(p) && p@ == spec_joined(log_dir@, "jterm.log"@),
    {
        DesktopLogger { log_file: Some(join_path(log_dir, "jterm.log")) }
    }

    /// The line logged when the application starts.
    pub fn log_startup(&self) -> (r: String)
        ensures
            exists|ts: Seq<char>|
                r@ == spec_log_line(ts, "INFO"@, "jterm desktop application starting..."@),
    {
        let ts = now_timestamp();
        let r = format_log_line(ts.as_str(), "INFO", "jterm desktop application starting...");
        proof {
            assert(r@ == spec_log_line(
                ts@,
                "INFO"@,
                "jterm desktop application starting..."@,
            ));
        }
        r
    }

    /// The line logged when the backend is being started on a port.
    pub fn log_python_backend_start(&self, port: u16) -> (r: String)
        ensures
            exists|ts: Seq<char>|
                r@ == spec_log_line(
                    ts,
                    "INFO"@,
                    "Python backend starting on port "@ + dec_seq(port as int),
                ),
    {
        let ts = now_timestamp();
        let mut message = String::new();
        message.append("Python backend starting on port ");
        let digits = u16_to_decimal(port);
        message.append(digits.as_str());
        let r = format_log_line(ts.as_str(), "INFO", message.as_str());
        proof {
            assert(message@ =~= "Python backend starting on port "@ + dec_seq(port as int));
            assert(r@ == spec_log_line(
                ts@,
                "INFO"@,
                "Python backend starting on port "@ + dec_seq(port as int),
            ));
        }
        r
    }

    /// The line logged when the backend answered its first healthy probe.
    pub fn log_python_backend_ready(&self, port: u16) -> (r: String)
        ensures
            exists|ts: Seq<char>|
                r@ == spec_log_line(
                    ts,
                    "INFO"@,
                    "Python backend ready on port "@ + dec_seq(port as int),
                ),
    {
        let ts = now_timestamp();
        let mut message = String::new();
        message.append("Python backend ready on port ");
        let digits = u16_to_decimal(port);
        message.append(digits.as_str());
        let r = format_log_line(ts.as_str(), "INFO", message.as_str());
        proof {
            assert(message@ =~= "Python backend ready on port "@ + dec_seq(port as int));
            assert(r@ == spec_log_line(
                ts@,
                "INFO"@,
                "Python backend ready on port "@ + dec_seq(port as int),
            ));
        }
        r
    }

    /// The line logged for an error message.
    pub fn log_error(&self, message: &str) -> (r: String)
        ensures
            exists|ts: Seq<char>| r@ == spec_log_line(ts, "ERROR"@, message@),
    {
        let ts = now_timestamp();
        let r = format_log_line(ts.as_str(), "ERROR", message);
        proof {
            assert(r@ == spec_log_line(ts@, "ERROR"@, message@));
        }
        r
    }

    /// The line logged when the application shuts down.
    pub fn log_shutdown(&self) -> (r: String)
        ensures
            exists|ts: Seq<char>|
                r@ == spec_log_line(ts, "INFO"@, "jterm desktop application shutting down..."@),
    {
        let ts = now_timestamp();
        let r = format_log_line(ts.as_str(), "INFO", "jterm desktop application shutting down...");
        proof {
            assert(r@ == spec_log_line(
                ts@,
                "INFO"@,
                "jterm desktop application shutting down..."@,
            ));
        }
        r
    }
}

} // verus!
