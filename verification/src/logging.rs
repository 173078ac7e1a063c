//! Configuration of the logging setup: levels and file rotation limits.
//!
//! Installing the subscriber and writing log lines are side effects that
//! live outside this library; the levels, their parsing, and the rotation
//! limits are decided here.

use vstd::prelude::*;
use crate::ids::{Id, Session};
use crate::text::str_eq;

verus! {

broadcast use vstd::string::group_string_axioms;

/// Severity of a log line.
#[derive(Debug, Clone, Copy, PartialEq, Eq, Structural)]
pub enum LogLevel {
    Error,
    Warn,
    Info,
    Debug,
    Trace,
}

/// The lower-case form of one character, folding only ASCII letters.
pub open spec fn spec_lower_char(c: char) -> char {
    if c == 'A' { 'a' } else if c == 'B' { 'b' } else if c == 'C' { 'c' }
    else if c == 'D' { 'd' } else if c == 'E' { 'e' } else if c == 'F' { 'f' }
    else if c == 'G' { 'g' } else if c == 'H' { 'h' } else if c == 'I' { 'i' }
    else if c == 'J' { 'j' } else if c == 'K' { 'k' } else if c == 'L' { 'l' }
    else if c == 'M' { 'm' } else if c == 'N' { 'n' } else if c == 'O' { 'o' }
    else if c == 'P' { 'p' } else if c == 'Q' { 'q' } else if c == 'R' { 'r' }
    else if c == 'S' { 's' } else if c == 'T' { 't' } else if c == 'U' { 'u' }
    else if c == 'V' { 'v' } else if c == 'W' { 'w' } else if c == 'X' { 'x' }
    else if c == 'Y' { 'y' } else if c == 'Z' { 'z' } else { c }
}

/// The lower-case form of a sequence of characters, folding only ASCII
/// letters.
pub open spec fn lower_seq(s: Seq<char>) -> Seq<char> {
    s.map_values(|c: char| spec_lower_char(c))
}

/// The lower-case form of one character, folding only ASCII letters.
fn lower_char(c: char) -> (r: char)
    ensures
        r == spec_lower_char(c),
{
    match c {
        'A' => 'a',
        'B' => 'b',
        'C' => 'c',
        'D' => 'd',
        'E' => 'e',
        'F' => 'f',
        'G' => 'g',
        'H' => 'h',
        'I' => 'i',
        'J' => 'j',
        'K' => 'k',
        'L' => 'l',
        'M' => 'm',
        'N' => 'n',
        'O' => 'o',
        'P' => 'p',
        'Q' => 'q',
        'R' => 'r',
        'S' => 's',
        'T' => 't',
        'U' => 'u',
        'V' => 'v',
        'W' => 'w',
        'X' => 'x',
        'Y' => 'y',
        'Z' => 'z',
        _ => c,
    }
}

impl LogLevel {
    /// Parses a level name, ignoring ASCII case; an unknown name is an
    /// error carrying the rejected name.
    pub fn from_str(s: &str) -> (r: Result<LogLevel, String>)
        ensures
            lower_seq(s@) == "error"@ ==> r is Ok && r->Ok_0 is Error,
            lower_seq(s@) == "warn"@ ==> r is Ok && r->Ok_0 is Warn,
            lower_seq(s@) == "info"@ ==> r is Ok && r->Ok_0 is Info,
            lower_seq(s@) == "debug"@ ==> r is Ok && r->Ok_0 is Debug,
            lower_seq(s@) == "trace"@ ==> r is Ok && r->Ok_0 is Trace,
            !(lower_seq(s@) == "error"@ || lower_seq(s@) == "warn"@ || lower_seq(s@) == "info"@
                || lower_seq(s@) == "debug"@ || lower_seq(s@) == "trace"@) ==> r is Err,
    {
        proof {
            reveal_strlit("error");
            reveal_strlit("warn");
            reveal_strlit("info");
            reveal_strlit("debug");
            reveal_strlit("trace");
            assert("error"@.len() == 5 && "error"@[0] == 'e');
            assert("warn"@.len() == 4 && "warn"@[0] == 'w');
            assert("info"@.len() == 4 && "info"@[0] == 'i');
            assert("debug"@.len() == 5 && "debug"@[0] == 'd');
            assert("trace"@.len() == 5 && "trace"@[0] == 't');
        }
        let folded = ascii_lower(s);
        let f = folded.as_str();
        if str_eq(f, "error") {
            Ok(LogLevel::Error)
        } else if str_eq(f, "warn") {
            Ok(LogLevel::Warn)
        } else if str_eq(f, "info") {
            Ok(LogLevel::Info)
        } else if str_eq(f, "debug") {
            Ok(LogLevel::Debug)
        } else if str_eq(f, "trace") {
            Ok(LogLevel::Trace)
        } else {
            let mut m = String::from_str("Invalid log level: ");
            m.append(s);
            Err(m)
        }
    }

    /// The level's lower-case name.
    pub fn as_str(&self) -> (r: &'static str)
        ensures
            self is Error ==> r@ == "error"@,
            self is Warn ==> r@ == "warn"@,
            self is Info ==> r@ == "info"@,
            self is Debug ==> r@ == "debug"@,
            self is Trace ==> r@ == "trace"@,
    {
        match self {
            LogLevel::Error => "error",
            LogLevel::Warn => "warn",
            LogLevel::Info => "info",
            LogLevel::Debug => "debug",
            LogLevel::Trace => "trace",
        }
    }
}

/// Folds the ASCII letters of a string to lower case.
pub fn ascii_lower(s: &str) -> (r: String)
    ensures
        r@ == lower_seq(s@),
{
    let n: usize = s.unicode_len();
    let mut out = String::new();
    let mut i: usize = 0;
    while i < n
        invariant
            0 <= i <= n,
            n == s@.len(),
            out@ =~= lower_seq(s@).subrange(0, i as int),
        decreases n - i,
    {
        let c = s.get_char(i);
        let lowered: char = lower_char(c);
        append_char(&mut out, lowered);
        proof {
            assert(out@ =~= lower_seq(s@).subrange(0, i + 1));
        }
        i = i + 1;
    }
    proof {
        assert(lower_seq(s@).subrange(0, n as int) =~= lower_seq(s@));
    }
    out
}

/// Relies on `String::push`: appends exactly one character.
#[verifier::external_body]
fn append_char(s: &mut String, c: char)
    ensures
        final(s)@ == old(s)@.push(c),
{
    s.push(c)
}

/// The session whose run a log line belongs to, with the operation and
/// module it came from.
#[derive(Debug, Clone)]
pub struct SessionContext {
    pub session_id: Option<Id<Session>>,
    pub operation: Option<String>,
    pub module: Option<String>,
}

impl SessionContext {
    /// An empty context.
    pub fn new() -> (r: Self)
        ensures
            r.session_id is None,
            r.operation is None,
            r.module is None,
    {
        SessionContext { session_id: None, operation: None, module: None }
    }

    /// Attaches the session.
    pub fn with_session_id(self, session_id: Id<Session>) -> (r: Self)
        ensures
            r.session_id == Some(session_id),
            r.operation == self.operation,
            r.module == self.module,
    {
        SessionContext { session_id: Some(session_id), ..self }
    }

    /// Attaches the operation.
    pub fn with_operation(self, operation: String) -> (r: Self)
        ensures
            r.operation == Some(operation),
            r.session_id == self.session_id,
            r.module == self.module,
    {
        SessionContext { operation: Some(operation), ..self }
    }

    /// Attaches the module.
    pub fn with_module(self, module: String) -> (r: Self)
        ensures
            r.module == Some(module),
            r.session_id == self.session_id,
            r.operation == self.operation,
    {
        SessionContext { module: Some(module), ..self }
    }
}

/// Configuration of the logging setup.
#[derive(Debug, Clone)]
pub struct LoggingConfig {
    /// Least severe level shown on the console.
    pub console_level: LogLevel,
    /// Least severe level written to the log file.
    pub file_level: LogLevel,
    /// Directory that receives the log files.
    pub log_directory: String,
    /// Size at which a log file rotates, in megabytes.
    pub max_file_size_mb: u64,
    /// Most log files kept.
    pub max_files: u32,
    /// Whether system information is logged at startup.
    pub include_system_info: bool,
}

impl LoggingConfig {
    /// The default setup: informational console output, debug-level file
    /// output under `./logs`, ten-megabyte files, five files kept, system
    /// information included.
    pub fn new() -> (r: Self)
        ensures
            r.console_level is Info,
            r.file_level is Debug,
            r.log_directory@ == "./logs"@,
            r.max_file_size_mb == 10,
            r.max_files == 5,
            r.include_system_info,
    {
        LoggingConfig {
            console_level: LogLevel::Info,
            file_level: LogLevel::Debug,
            log_directory: String::from_str("./logs"),
            max_file_size_mb: 10,
            max_files: 5,
            include_system_info: true,
        }
    }

    /// Sets the console level.
    pub fn console_level(self, level: LogLevel) -> (r: Self)
        ensures
            r == (LoggingConfig { console_level: level, ..self }),
    {
        LoggingConfig { console_level: level, ..self }
    }

    /// Sets the file level.
    pub fn file_level(self, level: LogLevel) -> (r: Self)
        ensures
            r == (LoggingConfig { file_level: level, ..self }),
    {
        LoggingConfig { file_level: level, ..self }
    }

    /// Sets the log directory.
    pub fn log_directory(self, dir: String) -> (r: Self)
        ensures
            r == (LoggingConfig { log_directory: dir, ..self }),
    {
        LoggingConfig { log_directory: dir, ..self }
    }

    /// Sets the rotation size, in megabytes.
    pub fn max_file_size_mb(self, size_mb: u64) -> (r: Self)
        ensures
            r == (LoggingConfig { max_file_size_mb: size_mb, ..self }),
    {
        LoggingConfig { max_file_size_mb: size_mb, ..self }
    }

    /// Sets how many files are kept.
    pub fn max_files(self, count: u32) -> (r: Self)
        ensures
            r == (LoggingConfig { max_files: count, ..self }),
    {
        LoggingConfig { max_files: count, ..self }
    }

    /// Sets whether system information is logged at startup.
    pub fn include_system_info(self, enabled: bool) -> (r: Self)
        ensures
            r == (LoggingConfig { include_system_info: enabled, ..self }),
    {
        LoggingConfig { include_system_info: enabled, ..self }
    }
}

} // verus!
