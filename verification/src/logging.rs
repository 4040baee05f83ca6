//! Log levels by name.

use vstd::prelude::*;
use vstd::string::StringExecFns;
use crate::error::{ElevateError, ElevateResult};
use crate::text::{lowercase, to_lowercase};

verus! {

/// How much the log holds, from the most to the least.
#[derive(Clone, Copy, Debug, PartialEq, Eq, Structural)]
pub enum LogLevel {
    Trace,
    Debug,
    Info,
    Warn,
    Error,
}

/// The level that a name in lower case stands for.
pub open spec fn level_named(lowered: Seq<char>) -> Option<LogLevel> {
    if lowered == "trace"@ {
        Some(LogLevel::Trace)
    } else if lowered == "debug"@ {
        Some(LogLevel::Debug)
    } else if lowered == "info"@ {
        Some(LogLevel::Info)
    } else if lowered == "warn"@ {
        Some(LogLevel::Warn)
    } else if lowered == "error"@ {
        Some(LogLevel::Error)
    } else {
        None
    }
}

/// Whether two texts are the same.
fn same_text(a: &str, b: &str) -> (same: bool)
    ensures
        same == (a@ == b@),
{
    String::from_str(a) == String::from_str(b)
}

/// The level that `lowered` stands for, where `lowered` is the lower-case
/// form of the name `level`; a configuration error that quotes `level` when
/// it stands for none.
pub fn level_from_lowercase(lowered: &str, level: &str) -> (r: ElevateResult<LogLevel>)
    ensures
        match level_named(lowered@) {
            Some(found) => r == Ok::<LogLevel, ElevateError>(found),
            None => r matches Err(ElevateError::ConfigError(text)) && text@
                == "Invalid log level: "@ + level@,
        },
{
    if same_text(lowered, "trace") {
        Ok(LogLevel::Trace)
    } else if same_text(lowered, "debug") {
        Ok(LogLevel::Debug)
    } else if same_text(lowered, "info") {
        Ok(LogLevel::Info)
    } else if same_text(lowered, "warn") {
        Ok(LogLevel::Warn)
    } else if same_text(lowered, "error") {
        Ok(LogLevel::Error)
    } else {
        Err(ElevateError::ConfigError(String::from_str("Invalid log level: ").concat(level)))
    }
}

/// The level that the name `level` stands for, whatever its case.
pub fn get_log_level(level: &str) -> (r: ElevateResult<LogLevel>)
    ensures
        match level_named(lowercase(level@)) {
            Some(found) => r == Ok::<LogLevel, ElevateError>(found),
            None => r matches Err(ElevateError::ConfigError(text)) && text@
                == "Invalid log level: "@ + level@,
        },
{
    let lowered = to_lowercase(level);
    level_from_lowercase(lowered.as_str(), level)
}

} // verus!
