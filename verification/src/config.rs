//! The tool's settings and their built-in values.

use vstd::prelude::*;
use vstd::string::StringExecFns;
use crate::error::{ElevateError, ElevateResult};

verus! {

/// How log lines are laid out.
#[derive(Clone, Copy, Debug, PartialEq, Eq, Structural)]
pub enum LogFormat {
    Json,
    Text,
    Pretty,
}

/// How far the command is to be kept apart. Informational.
#[derive(Clone, Copy, Debug, PartialEq, Eq, Structural)]
pub enum IsolationLevel {
    NoIsolation,
    Low,
    Medium,
    High,
}

/// The integrity level the command is to run at. Informational.
#[derive(Clone, Copy, Debug, PartialEq, Eq, Structural)]
pub enum IntegrityLevel {
    Untrusted,
    Low,
    Medium,
    High,
    System,
}

/// Settings of the log.
#[derive(Debug, PartialEq, Eq)]
pub struct LoggingConfig {
    pub level: String,
    pub file: Option<String>,
    pub format: LogFormat,
}

/// Settings of the security model. Informational.
#[derive(Debug, PartialEq, Eq)]
pub struct SecurityConfig {
    pub allowed_privileges: Vec<String>,
    pub isolation_level: IsolationLevel,
    pub integrity_level: IntegrityLevel,
}

/// Settings of process creation.
#[derive(Debug, PartialEq, Eq)]
pub struct ProcessConfig {
    pub default_shell: String,
    pub creation_flags: u32,
    /// Bound of the wait for the command, in seconds; `None` waits without
    /// bound.
    pub timeout: Option<u64>,
}

/// All settings.
#[derive(Debug, PartialEq, Eq)]
pub struct Config {
    pub logging: LoggingConfig,
    pub security: SecurityConfig,
    pub process: ProcessConfig,
}

/// What the embedding program found where the settings file should be.
#[derive(Debug, PartialEq, Eq)]
pub enum ConfigSource {
    /// There is no settings file.
    Missing,
    /// The file exists and could not be read; the text says why.
    Unreadable(String),
    /// The file was read and is not a valid settings file; the text says
    /// why.
    Malformed(String),
    /// The settings the file holds.
    Parsed(Config),
}

/// The longest bound, in milliseconds, that a wait can be given: one less
/// than the value that stands for "no bound".
pub const LONGEST_WAIT_MS: u32 = 0xFFFF_FFFE;

/// The bound of a wait in milliseconds for a bound in seconds, cut off at
/// the longest bound a wait can be given.
pub open spec fn wait_millis(seconds: u64) -> u32 {
    if seconds * 1000 <= LONGEST_WAIT_MS {
        (seconds * 1000) as u32
    } else {
        LONGEST_WAIT_MS
    }
}

impl Config {
    /// Whether the settings are the built-in ones.
    pub open spec fn is_default(&self) -> bool {
        &&& self.logging.level@ == "info"@
        &&& self.logging.file is None
        &&& self.logging.format == LogFormat::Text
        &&& self.security.allowed_privileges@.len() == 0
        &&& self.security.isolation_level == IsolationLevel::Medium
        &&& self.security.integrity_level == IntegrityLevel::Medium
        &&& self.process.default_shell@ == "powershell.exe"@
        &&& self.process.creation_flags == 0
        &&& self.process.timeout == Some(30u64)
    }

    /// Settles the settings from what was found: the built-in settings when
    /// there is no file, the file's settings when it was read and is valid,
    /// and a configuration error that quotes the reason otherwise.
    pub fn load(source: ConfigSource) -> (r: ElevateResult<Config>)
        ensures
            match source {
                ConfigSource::Missing => r matches Ok(c) && c.is_default(),
                ConfigSource::Parsed(config) => r == Ok::<Config, ElevateError>(config),
                ConfigSource::Unreadable(why) => r matches Err(ElevateError::ConfigError(text))
                    && text@ == "Failed to read config: "@ + why@,
                ConfigSource::Malformed(why) => r matches Err(ElevateError::ConfigError(text))
                    && text@ == "Failed to parse config: "@ + why@,
            },
    {
        match source {
            ConfigSource::Missing => Ok(Config::default()),
            ConfigSource::Parsed(config) => Ok(config),
            ConfigSource::Unreadable(why) => Err(
                ElevateError::ConfigError(
                    String::from_str("Failed to read config: ").concat(why.as_str()),
                ),
            ),
            ConfigSource::Malformed(why) => Err(
                ElevateError::ConfigError(
                    String::from_str("Failed to parse config: ").concat(why.as_str()),
                ),
            ),
        }
    }
}

impl ProcessConfig {
    /// The bound to give the wait for the command, in milliseconds.
    pub fn wait_timeout(&self) -> (bound: Option<u32>)
        ensures
            bound == (match self.timeout {
                Some(seconds) => Some(wait_millis(seconds)),
                None => None,
            }),
    {
        match self.timeout {
            Some(seconds) => {
                if seconds <= 4_294_967 {
                    let millis: u64 = seconds * 1000;
                    if millis <= 0xFFFF_FFFE {
                        Some(millis as u32)
                    } else {
                        Some(LONGEST_WAIT_MS)
                    }
                } else {
                    Some(LONGEST_WAIT_MS)
                }
            },
            None => None,
        }
    }
}

impl Default for Config {
    fn default() -> (c: Config)
        ensures
            c.is_default(),
    {
        Config {
            logging: LoggingConfig {
                level: String::from_str("info"),
                file: None,
                format: LogFormat::Text,
            },
            security: SecurityConfig {
                allowed_privileges: Vec::new(),
                isolation_level: IsolationLevel::Medium,
                integrity_level: IntegrityLevel::Medium,
            },
            process: ProcessConfig {
                default_shell: String::from_str("powershell.exe"),
                creation_flags: 0,
                timeout: Some(30),
            },
        }
    }
}

} // verus!
