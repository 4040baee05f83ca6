//! The wording of failures: each names the stage that failed and, where the
//! operating system gave one, its error code.

use vstd::prelude::*;
use vstd::string::StringExecFns;
use crate::elevation::{Completion, ElevationError};
use crate::error::{as_signed, TiError, WindowsError};
use crate::privilege::PrivilegeError;
use crate::process::{LifecycleError, ProcessCreationError};
use crate::service::ServiceError;
use crate::text::{decimal, decimal_text};
use crate::token::{SelfElevationError, TokenError};

verus! {

/// A text followed by an error code in brackets.
pub open spec fn with_code(text: Seq<char>, code: u32) -> Seq<char> {
    text + " (code: "@ + decimal(code as nat) + ")"@
}

/// Writes a text followed by an error code in brackets.
fn coded(text: &str, code: u32) -> (s: String)
    ensures
        s@ == with_code(text@, code),
{
    let number = decimal_text(code);
    String::from_str(text).concat(" (code: ").concat(number.as_str()).concat(")")
}

impl ServiceError {
    /// What the failure says.
    pub open spec fn text(self) -> Seq<char> {
        match self {
            ServiceError::AccessDenied { code } => with_code(
                "Failed to open service control manager"@,
                code,
            ),
            ServiceError::ServiceNotFound { code } => with_code(
                "Failed to open TrustedInstaller service (are you running as Administrator?)"@,
                code,
            ),
            ServiceError::ServiceStartFailed { code } => with_code(
                "Failed to start TrustedInstaller service"@,
                code,
            ),
            ServiceError::QueryFailed { code } => with_code(
                "Failed to query service status"@,
                code,
            ),
            ServiceError::UnexpectedServiceState { state } => "Service in unexpected state: "@
                + decimal(state as nat),
            ServiceError::ServiceStartTimeout => "Timeout waiting for service to start"@,
        }
    }

    /// Writes what the failure says.
    pub fn message(&self) -> (s: String)
        ensures
            s@ == self.text(),
    {
        match self {
            ServiceError::AccessDenied { code } => coded(
                "Failed to open service control manager",
                *code,
            ),
            ServiceError::ServiceNotFound { code } => coded(
                "Failed to open TrustedInstaller service (are you running as Administrator?)",
                *code,
            ),
            ServiceError::ServiceStartFailed { code } => coded(
                "Failed to start TrustedInstaller service",
                *code,
            ),
            ServiceError::QueryFailed { code } => coded("Failed to query service status", *code),
            ServiceError::UnexpectedServiceState { state } => {
                let number = decimal_text(*state);
                String::from_str("Service in unexpected state: ").concat(number.as_str())
            },
            ServiceError::ServiceStartTimeout => String::from_str(
                "Timeout waiting for service to start",
            ),
        }
    }
}

impl ProcessCreationError {
    /// What the failure says.
    pub open spec fn text(self) -> Seq<char> {
        match self {
            ProcessCreationError::OpenParentFailed { code } => with_code(
                "Failed to open TI process"@,
                code,
            ),
            ProcessCreationError::AttributeListError { code } => with_code(
                "Failed to allocate attribute list"@,
                code,
            ),
            ProcessCreationError::ProcessCreationFailed { code } => with_code(
                "Failed to create process"@,
                code,
            ),
        }
    }

    /// Writes what the failure says.
    pub fn message(&self) -> (s: String)
        ensures
            s@ == self.text(),
    {
        match self {
            ProcessCreationError::OpenParentFailed { code } => coded(
                "Failed to open TI process",
                *code,
            ),
            ProcessCreationError::AttributeListError { code } => coded(
                "Failed to allocate attribute list",
                *code,
            ),
            ProcessCreationError::ProcessCreationFailed { code } => coded(
                "Failed to create process",
                *code,
            ),
        }
    }
}

impl TokenError {
    /// What the failure says.
    pub open spec fn text(self) -> Seq<char> {
        match self {
            TokenError::TokenAcquisitionFailed { code } => with_code(
                "Failed to open process token"@,
                code,
            ),
        }
    }

    /// Writes what the failure says.
    pub fn message(&self) -> (s: String)
        ensures
            s@ == self.text(),
    {
        match self {
            TokenError::TokenAcquisitionFailed { code } => coded(
                "Failed to open process token",
                *code,
            ),
        }
    }
}

impl LifecycleError {
    /// What the failure says.
    pub open spec fn text(self) -> Seq<char> {
        match self {
            LifecycleError::NotSuspended => "Process is not suspended"@,
            LifecycleError::ResumeFailed { code } => with_code(
                "Failed to resume process thread"@,
                code,
            ),
            LifecycleError::WaitFailed { code } => with_code(
                "Failed to get process exit code"@,
                code,
            ),
            LifecycleError::StatusUnavailable { code } => with_code(
                "Failed to get process status"@,
                code,
            ),
        }
    }

    /// Writes what the failure says.
    pub fn message(&self) -> (s: String)
        ensures
            s@ == self.text(),
    {
        match self {
            LifecycleError::NotSuspended => String::from_str("Process is not suspended"),
            LifecycleError::ResumeFailed { code } => coded(
                "Failed to resume process thread",
                *code,
            ),
            LifecycleError::WaitFailed { code } => coded("Failed to get process exit code", *code),
            LifecycleError::StatusUnavailable { code } => coded(
                "Failed to get process status",
                *code,
            ),
        }
    }
}

impl PrivilegeError {
    /// What the failure says; it names the privilege.
    pub open spec fn text(&self) -> Seq<char> {
        match *self {
            PrivilegeError::LookupFailed { name, code } => with_code(
                "Failed to lookup privilege: "@ + name@,
                code,
            ),
            PrivilegeError::AdjustFailed { name, code } => with_code(
                "Failed to adjust privilege: "@ + name@,
                code,
            ),
        }
    }

    /// Writes what the failure says.
    pub fn message(&self) -> (s: String)
        ensures
            s@ == self.text(),
    {
        match self {
            PrivilegeError::LookupFailed { name, code } => {
                let head = String::from_str("Failed to lookup privilege: ").concat(name.as_str());
                coded(head.as_str(), *code)
            },
            PrivilegeError::AdjustFailed { name, code } => {
                let head = String::from_str("Failed to adjust privilege: ").concat(name.as_str());
                coded(head.as_str(), *code)
            },
        }
    }

    /// The failure as an error of the privilege part.
    pub fn to_ti_error(&self) -> (e: TiError)
        ensures
            e matches TiError::PrivilegeError(detail) && detail@ == self.text(),
    {
        TiError::PrivilegeError(self.message())
    }
}

impl SelfElevationError {
    /// What the failure says.
    pub open spec fn text(&self) -> Seq<char> {
        match *self {
            SelfElevationError::Token(TokenError::TokenAcquisitionFailed { code }) => with_code(
                "Failed to open thread token"@,
                code,
            ),
            SelfElevationError::Privilege(e) => e.text(),
        }
    }

    /// The failure as an error of the privilege part.
    pub fn to_ti_error(&self) -> (e: TiError)
        ensures
            e matches TiError::PrivilegeError(detail) && detail@ == self.text(),
    {
        match self {
            SelfElevationError::Token(TokenError::TokenAcquisitionFailed { code }) => {
                TiError::PrivilegeError(coded("Failed to open thread token", *code))
            },
            SelfElevationError::Privilege(e) => TiError::PrivilegeError(e.message()),
        }
    }
}

impl ElevationError {
    /// What the failure says.
    pub open spec fn text(self) -> Seq<char> {
        match self {
            ElevationError::EmptyCommand => "Command cannot be empty"@,
            ElevationError::Service(e) => e.text(),
            ElevationError::Creation(e) => e.text(),
            ElevationError::Token(e) => e.text(),
            ElevationError::Lifecycle(e) => e.text(),
        }
    }

    /// The failure as an error of the part of the tool it came from, with
    /// what it says as the detail: a failure to locate the service is a
    /// service error, a failure to open the token a privilege error, every
    /// other a process error.
    pub open spec fn reported(self, e: TiError) -> bool {
        match self {
            ElevationError::Service(_) => e matches TiError::ServiceError(detail) && detail@
                == self.text(),
            ElevationError::Token(_) => e matches TiError::PrivilegeError(detail) && detail@
                == self.text(),
            _ => e matches TiError::ProcessError(detail) && detail@ == self.text(),
        }
    }

    /// The failure as an error of the part of the tool it came from.
    pub fn to_ti_error(&self) -> (e: TiError)
        ensures
            self.reported(e),
    {
        match self {
            ElevationError::EmptyCommand => TiError::ProcessError(
                String::from_str("Command cannot be empty"),
            ),
            ElevationError::Service(e) => TiError::ServiceError(e.message()),
            ElevationError::Creation(e) => TiError::ProcessError(e.message()),
            ElevationError::Token(e) => TiError::PrivilegeError(e.message()),
            ElevationError::Lifecycle(e) => TiError::ProcessError(e.message()),
        }
    }
}

/// The exit status with which the tool itself ends: the command's own exit
/// code where it has one, so that a command that fails makes the tool fail; 0
/// when the wait's bound elapsed, which says nothing against the command; 1
/// when the run failed before the command could end.
pub open spec fn exit_status_of(outcome: Result<Completion, ElevationError>) -> i32 {
    match outcome {
        Ok(done) => match done.exit {
            Some(code) => as_signed(code),
            None => 0,
        },
        Err(_) => 1,
    }
}

/// The exit status with which the tool itself ends.
pub fn exit_status(outcome: &Result<Completion, ElevationError>) -> (status: i32)
    ensures
        status == exit_status_of(*outcome),
        status == 0 <==> (*outcome matches Ok(done) && (done.exit == Some(0u32) || done.exit
            is None)),
{
    match outcome {
        Ok(done) => match done.exit {
            Some(code) => WindowsError::last_error(code).code,
            None => 0,
        },
        Err(_) => 1,
    }
}

/// The detail of the error for a command that ended with a code other than
/// zero.
pub open spec fn exit_text(code: u32) -> Seq<char> {
    "Process exited with code "@ + decimal(code as nat)
}

/// Whether `r` is what a run's outcome means to the caller of the command:
/// success when the command ended with code 0 or was still running when the
/// wait's bound elapsed, a process error that quotes the code when it ended
/// with another, and the run's own failure otherwise.
pub open spec fn is_verdict(outcome: Result<Completion, ElevationError>, r: Result<(), TiError>) -> bool {
    match outcome {
        Ok(done) => match done.exit {
            Some(code) => if code == 0 {
                r is Ok
            } else {
                r matches Err(TiError::ProcessError(detail)) && detail@ == exit_text(code)
            },
            None => r is Ok,
        },
        Err(e) => r matches Err(reported) && e.reported(reported),
    }
}

/// What a run's outcome means to the caller of the command.
pub fn verdict(outcome: &Result<Completion, ElevationError>) -> (r: Result<(), TiError>)
    ensures
        is_verdict(*outcome, r),
{
    match outcome {
        Ok(done) => match done.exit {
            Some(code) => {
                if code == 0 {
                    Ok(())
                } else {
                    let number = decimal_text(code);
                    Err(
                        TiError::ProcessError(
                            String::from_str("Process exited with code ").concat(number.as_str()),
                        ),
                    )
                }
            },
            None => Ok(()),
        },
        Err(e) => Err(e.to_ti_error()),
    }
}

} // verus!
