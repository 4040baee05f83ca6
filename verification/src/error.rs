//! Errors as the embedding program reports them, and their wording.

use vstd::prelude::*;
use vstd::string::StringExecFns;
use crate::text::{signed_decimal, signed_decimal_text};

verus! {

/// What went wrong around an access token.
#[derive(Clone, Copy, Debug, PartialEq, Eq, Structural)]
pub enum TokenErrorKind {
    OpenProcessToken,
    AdjustPrivileges,
    LookupPrivilege,
    Open,
    ProcessOperation,
}

/// What went wrong around a privilege.
#[derive(Clone, Copy, Debug, PartialEq, Eq, Structural)]
pub enum PrivilegeErrorKind {
    Enable,
    Disable,
    Query,
}

/// The part of the operating system's interface that reported a failure.
#[derive(Clone, Copy, Debug, PartialEq, Eq, Structural)]
pub enum WindowsErrorKind {
    ProcessOperation,
    TokenOperation,
    SecurityOperation,
    ServiceOperation,
    PrivilegeOperation,
    IntegrityOperation,
    RegistryOperation,
    FileOperation,
    MemoryOperation,
    DebugOperation,
}

impl TokenErrorKind {
    /// The wording of the kind.
    pub open spec fn text(self) -> Seq<char> {
        match self {
            TokenErrorKind::ProcessOperation => "Process operation failed"@,
            TokenErrorKind::OpenProcessToken => "Failed to open process token"@,
            TokenErrorKind::AdjustPrivileges => "Failed to adjust token privileges"@,
            TokenErrorKind::LookupPrivilege => "Failed to lookup privilege"@,
            TokenErrorKind::Open => "Failed to open token"@,
        }
    }

    /// The wording of the kind.
    pub fn message(&self) -> (s: &'static str)
        ensures
            s@ == self.text(),
    {
        match self {
            TokenErrorKind::ProcessOperation => "Process operation failed",
            TokenErrorKind::OpenProcessToken => "Failed to open process token",
            TokenErrorKind::AdjustPrivileges => "Failed to adjust token privileges",
            TokenErrorKind::LookupPrivilege => "Failed to lookup privilege",
            TokenErrorKind::Open => "Failed to open token",
        }
    }
}

impl PrivilegeErrorKind {
    /// The wording of the kind.
    pub open spec fn text(self) -> Seq<char> {
        match self {
            PrivilegeErrorKind::Enable => "Failed to enable privilege"@,
            PrivilegeErrorKind::Disable => "Failed to disable privilege"@,
            PrivilegeErrorKind::Query => "Failed to query privilege"@,
        }
    }

    /// The wording of the kind.
    pub fn message(&self) -> (s: &'static str)
        ensures
            s@ == self.text(),
    {
        match self {
            PrivilegeErrorKind::Enable => "Failed to enable privilege",
            PrivilegeErrorKind::Disable => "Failed to disable privilege",
            PrivilegeErrorKind::Query => "Failed to query privilege",
        }
    }
}

impl WindowsErrorKind {
    /// The wording of the kind.
    pub open spec fn text(self) -> Seq<char> {
        match self {
            WindowsErrorKind::ProcessOperation => "Process operation failed"@,
            WindowsErrorKind::TokenOperation => "Token operation failed"@,
            WindowsErrorKind::SecurityOperation => "Security operation failed"@,
            WindowsErrorKind::ServiceOperation => "Service operation failed"@,
            WindowsErrorKind::PrivilegeOperation => "Privilege operation failed"@,
            WindowsErrorKind::IntegrityOperation => "Integrity level operation failed"@,
            WindowsErrorKind::RegistryOperation => "Registry operation failed"@,
            WindowsErrorKind::FileOperation => "File operation failed"@,
            WindowsErrorKind::MemoryOperation => "Memory operation failed"@,
            WindowsErrorKind::DebugOperation => "Debug operation failed"@,
        }
    }

    /// The wording of the kind.
    pub fn message(&self) -> (s: &'static str)
        ensures
            s@ == self.text(),
    {
        match self {
            WindowsErrorKind::ProcessOperation => "Process operation failed",
            WindowsErrorKind::TokenOperation => "Token operation failed",
            WindowsErrorKind::SecurityOperation => "Security operation failed",
            WindowsErrorKind::ServiceOperation => "Service operation failed",
            WindowsErrorKind::PrivilegeOperation => "Privilege operation failed",
            WindowsErrorKind::IntegrityOperation => "Integrity level operation failed",
            WindowsErrorKind::RegistryOperation => "Registry operation failed",
            WindowsErrorKind::FileOperation => "File operation failed",
            WindowsErrorKind::MemoryOperation => "Memory operation failed",
            WindowsErrorKind::DebugOperation => "Debug operation failed",
        }
    }
}

/// An error as the embedding program reports it.
#[allow(inconsistent_fields)]
#[derive(Debug, PartialEq, Eq)]
pub enum ElevateError {
    TokenError { kind: TokenErrorKind },
    PrivilegeError { kind: PrivilegeErrorKind, privilege: Option<String> },
    ConfigError(String),
    IoError(String),
    Windows { kind: WindowsErrorKind, code: i32, context: String },
    ValidationError(String),
    ProcessError(String),
}

pub type ElevateResult<T> = Result<T, ElevateError>;

impl ElevateError {
    /// The message of the error: its category, then what it holds.
    pub open spec fn text(&self) -> Seq<char> {
        match *self {
            ElevateError::TokenError { kind } => "Token error: "@ + kind.text(),
            ElevateError::PrivilegeError { kind, .. } => "Privilege error: "@ + kind.text(),
            ElevateError::ConfigError(detail) => "Configuration error: "@ + detail@,
            ElevateError::IoError(detail) => "IO error: "@ + detail@,
            ElevateError::Windows { kind, code, .. } => "Windows error: "@ + kind.text()
                + " (code: "@ + signed_decimal(code as int) + ")"@,
            ElevateError::ValidationError(detail) => "Validation error: "@ + detail@,
            ElevateError::ProcessError(detail) => "Process error: "@ + detail@,
        }
    }

    /// Writes the message of the error.
    pub fn message(&self) -> (s: String)
        ensures
            s@ == self.text(),
    {
        match self {
            ElevateError::TokenError { kind } => String::from_str("Token error: ").concat(
                kind.message(),
            ),
            ElevateError::PrivilegeError { kind, .. } => String::from_str(
                "Privilege error: ",
            ).concat(kind.message()),
            ElevateError::ConfigError(detail) => String::from_str("Configuration error: ").concat(
                detail.as_str(),
            ),
            ElevateError::IoError(detail) => String::from_str("IO error: ").concat(
                detail.as_str(),
            ),
            ElevateError::Windows { kind, code, .. } => {
                let number = signed_decimal_text(*code);
                String::from_str("Windows error: ").concat(kind.message()).concat(
                    " (code: ",
                ).concat(number.as_str()).concat(")")
            },
            ElevateError::ValidationError(detail) => String::from_str("Validation error: ").concat(
                detail.as_str(),
            ),
            ElevateError::ProcessError(detail) => String::from_str("Process error: ").concat(
                detail.as_str(),
            ),
        }
    }
}

/// An error code of the operating system, as a signed number.
#[derive(Clone, Copy, Debug, PartialEq, Eq, Structural)]
pub struct WindowsError {
    pub code: i32,
}

/// The signed number with the same 32 bits as `code`.
pub open spec fn as_signed(code: u32) -> i32 {
    if code < 0x8000_0000 {
        code as i32
    } else {
        (code - 0x1_0000_0000) as i32
    }
}

impl WindowsError {
    /// Wraps the thread's last error code, which the embedding program has
    /// read from the operating system.
    pub fn last_error(code: u32) -> (e: WindowsError)
        ensures
            e.code == as_signed(code),
    {
        if code < 0x8000_0000 {
            WindowsError { code: code as i32 }
        } else {
            let wide: i64 = code as i64 - 0x1_0000_0000;
            WindowsError { code: wide as i32 }
        }
    }

    /// The error to report for a failure of the given kind, met while doing
    /// what `context` says.
    pub fn to_elevate_error(&self, kind: WindowsErrorKind, context: &str) -> (e: ElevateError)
        ensures
            e matches ElevateError::Windows { kind: k, code, context: c } && k == kind && code
                == self.code && c@ == context@,
    {
        ElevateError::Windows { kind, code: self.code, context: String::from_str(context) }
    }
}

/// An error by the part of the tool it came from.
#[derive(Debug, PartialEq, Eq)]
pub enum TiError {
    ServiceError(String),
    ProcessError(String),
    PrivilegeError(String),
    SystemError(String),
    ConfigError(String),
}

pub type TiResult<T> = Result<T, TiError>;

impl TiError {
    /// The message of the error: its category, then its detail.
    pub open spec fn text(&self) -> Seq<char> {
        match *self {
            TiError::ServiceError(detail) => "Service error: "@ + detail@,
            TiError::ProcessError(detail) => "Process error: "@ + detail@,
            TiError::PrivilegeError(detail) => "Privilege error: "@ + detail@,
            TiError::SystemError(detail) => "System error: "@ + detail@,
            TiError::ConfigError(detail) => "Configuration error: "@ + detail@,
        }
    }

    /// Writes the message of the error.
    pub fn message(&self) -> (s: String)
        ensures
            s@ == self.text(),
    {
        match self {
            TiError::ServiceError(detail) => String::from_str("Service error: ").concat(
                detail.as_str(),
            ),
            TiError::ProcessError(detail) => String::from_str("Process error: ").concat(
                detail.as_str(),
            ),
            TiError::PrivilegeError(detail) => String::from_str("Privilege error: ").concat(
                detail.as_str(),
            ),
            TiError::SystemError(detail) => String::from_str("System error: ").concat(
                detail.as_str(),
            ),
            TiError::ConfigError(detail) => String::from_str("Configuration error: ").concat(
                detail.as_str(),
            ),
        }
    }
}

} // verus!
