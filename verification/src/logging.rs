//! The log file: its line format and when it is rotated.

use vstd::prelude::*;

verus! {

/// Size in bytes at which the log file is rotated.
pub const MAX_LOG_BYTES: u64 = 1024 * 1024;

/// First second (since the Unix epoch) of the year 10000, which an RFC 3339
/// timestamp cannot show.
pub const TIMESTAMP_LIMIT_SECS: u64 = 253_402_300_800;

/// Whether a log file of `len` bytes is rotated before the next line is written.
pub fn needs_rotation(len: u64) -> (r: bool)
    ensures
        r == (len >= MAX_LOG_BYTES),
{
    len >= MAX_LOG_BYTES
}

/// The severity of a log record.
#[derive(Debug, Clone, Copy, PartialEq, Eq, Structural)]
pub enum LogLevel {
    Error,
    Warn,
    Info,
    Debug,
    Trace,
}

/// The name of each level, padded with spaces to five characters.
pub open spec fn padded_level_name(level: LogLevel) -> Seq<char> {
    match level {
        LogLevel::Error => seq!['E', 'R', 'R', 'O', 'R'],
        LogLevel::Warn => seq!['W', 'A', 'R', 'N', ' '],
        LogLevel::Info => seq!['I', 'N', 'F', 'O', ' '],
        LogLevel::Debug => seq!['D', 'E', 'B', 'U', 'G'],
        LogLevel::Trace => seq!['T', 'R', 'A', 'C', 'E'],
    }
}

impl LogLevel {
    /// The level's name padded with spaces to five characters.
    pub fn padded_name(&self) -> (r: &'static str)
        ensures
            r@ == padded_level_name(*self),
    {
        match self {
            LogLevel::Error => {
                proof {
                    reveal_strlit("ERROR");
                }
                let s = "ERROR";
                assert(s@ =~= padded_level_name(*self));
                s
            },
            LogLevel::Warn => {
                proof {
                    reveal_strlit("WARN ");
                }
                let s = "WARN ";
                assert(s@ =~= padded_level_name(*self));
                s
            },
            LogLevel::Info => {
                proof {
                    reveal_strlit("INFO ");
                }
                let s = "INFO ";
                assert(s@ =~= padded_level_name(*self));
                s
            },
            LogLevel::Debug => {
                proof {
                    reveal_strlit("DEBUG");
                }
                let s = "DEBUG";
                assert(s@ =~= padded_level_name(*self));
                s
            },
            LogLevel::Trace => {
                proof {
                    reveal_strlit("TRACE");
                }
                let s = "TRACE";
                assert(s@ =~= padded_level_name(*self));
                s
            },
        }
    }
}

/// The RFC 3339 UTC timestamp, to the second, of `secs` seconds after the Unix
/// epoch, as `humantime::format_rfc3339_seconds` writes it.
pub uninterp spec fn rfc3339_seconds(secs: u64) -> Seq<char>;

/// Formats `secs` seconds after the Unix epoch with
/// `humantime::format_rfc3339_seconds`. Its source writes the fixed pattern
/// `YYYY-MM-DDTHH:MM:SSZ` (20 characters) in UTC for times before the year 10000
/// and fails for later ones; only the length and the separators are stated here,
/// the calendar digits are named `rfc3339_seconds`.
#[verifier::external_body]
fn format_rfc3339_seconds(secs: u64) -> (r: String)
    requires
        secs < TIMESTAMP_LIMIT_SECS,
    ensures
        r@ == rfc3339_seconds(secs),
        r@.len() == 20,
        r@[4] == '-' && r@[7] == '-' && r@[10] == 'T',
        r@[13] == ':' && r@[16] == ':' && r@[19] == 'Z',
{
    let time = std::time::UNIX_EPOCH + std::time::Duration::from_secs(secs);
    humantime::format_rfc3339_seconds(time).to_string()
}

/// One line of the log file: the timestamp, the padded level, the target and the
/// message, ended by a newline.
pub open spec fn log_line_text(secs: u64, level: LogLevel, target: Seq<char>, message: Seq<char>) -> Seq<char> {
    rfc3339_seconds(secs) + seq![' '] + padded_level_name(level) + seq![' '] + target + seq![':', ' ']
        + message + seq!['\n']
}

/// The line that records `message` from `target` at `level`, `secs` seconds after
/// the Unix epoch; `None` for times the timestamp cannot show, which are not
/// written.
pub fn format_log_line(secs: u64, level: LogLevel, target: &str, message: &str) -> (r: Option<
    String,
>)
    ensures
        secs >= TIMESTAMP_LIMIT_SECS ==> r is None,
        secs < TIMESTAMP_LIMIT_SECS ==> r is Some && r->0@ == log_line_text(
            secs,
            level,
            target@,
            message@,
        ),
{
    if secs >= TIMESTAMP_LIMIT_SECS {
        return None;
    }
    let mut line = format_rfc3339_seconds(secs);
    proof {
        reveal_strlit(" ");
        reveal_strlit(": ");
        reveal_strlit("\n");
    }
    line.append(" ");
    line.append(level.padded_name());
    line.append(" ");
    line.append(target);
    line.append(": ");
    line.append(message);
    line.append("\n");
    assert(line@ =~= log_line_text(secs, level, target@, message@));
    Some(line)
}

} // verus!
