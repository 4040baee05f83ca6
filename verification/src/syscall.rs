//! The vocabulary between the state machines and the program that embeds them:
//! what the machines ask of the operating system, and what comes back.

use vstd::prelude::*;

verus! {

/// Locally unique identifier of a privilege, as resolved from its name.
#[derive(Clone, Copy, Debug, PartialEq, Eq, Structural)]
pub struct Luid {
    pub low: u32,
    pub high: i32,
}

/// One request to the operating system. Handles are carried by value; a
/// request never performs anything by itself.
#[derive(Debug, PartialEq, Eq)]
pub enum SysCall {
    /// Connect to the service control manager with the given rights.
    OpenScManager { access: u32 },
    /// Open the named service with the given rights.
    OpenService { manager: usize, name: String, access: u32 },
    /// Ask the service to start, without arguments.
    StartService { service: usize },
    /// Query the service's state and process identifier.
    QueryServiceStatus { service: usize },
    /// Block the calling thread for the given time.
    Sleep { millis: u32 },
    /// Release a service or manager handle.
    CloseServiceHandle { handle: usize },
    /// Open the process with the given identifier.
    OpenProcess { access: u32, pid: u32 },
    /// Ask how many bytes an attribute list of the given length needs.
    AttributeListSize { attributes: u32 },
    /// Allocate the given number of bytes for an attribute list.
    AllocateAttributeList { bytes: usize },
    /// Initialize an allocated attribute list.
    InitializeAttributeList { list: usize, attributes: u32, bytes: usize },
    /// Name `parent` as the parent process in the attribute list.
    SetParentProcess { list: usize, parent: usize },
    /// Create a process from the command line, with the attribute list in its
    /// startup descriptor.
    CreateProcess { command_line: String, flags: u32, attribute_list: usize },
    /// Tear down an initialized attribute list.
    DeleteAttributeList { list: usize },
    /// Free the memory of an attribute list.
    FreeAttributeList { list: usize },
    /// Release a process, thread or token handle.
    CloseHandle { handle: usize },
    /// Let the calling thread impersonate the caller's own security context.
    ImpersonateSelf,
    /// Open the calling thread's access token.
    OpenThreadToken { access: u32 },
    /// Open the access token of the process behind the handle.
    OpenProcessToken { process: usize, access: u32 },
    /// Resolve a privilege name to its locally unique identifier.
    LookupPrivilegeValue { name: String },
    /// Set the attributes of one privilege on a token.
    AdjustTokenPrivilege { token: usize, luid: Luid, attributes: u32 },
    /// Resume the thread behind the handle.
    ResumeThread { thread: usize },
    /// Wait until the process terminates; `None` waits without bound, `Some`
    /// gives the bound in milliseconds.
    WaitForExit { process: usize, timeout: Option<u32> },
    /// Read the exit code of the process.
    GetExitCode { process: usize },
}

/// The operating system's answer to one request.
#[derive(Clone, Copy, Debug, PartialEq, Eq, Structural)]
pub enum Reply {
    /// The call failed; `code` is the thread's last error.
    Failed { code: u32 },
    /// The call succeeded and returned nothing further.
    Done,
    /// The call succeeded and returned a handle or an address.
    Handle { raw: usize },
    /// The call reported a size in bytes.
    Size { bytes: usize },
    /// The service's current state and, once it runs, its process identifier.
    Status { state: u32, pid: u32 },
    /// The new process: its handles and identifiers.
    Created { process: usize, thread: usize, pid: u32, tid: u32 },
    /// The identifier a privilege name resolved to.
    Resolved { luid: Luid },
    /// The awaited process has terminated.
    Signaled,
    /// The wait's bound elapsed and the process has not terminated.
    TimedOut,
    /// The exit code the process reported.
    ExitCode { code: u32 },
}

impl SysCall {
    /// Whether the request belongs to the service control manager's
    /// interface, or is the pause between two status queries.
    pub open spec fn is_service_call(self) -> bool {
        match self {
            SysCall::OpenScManager { .. } => true,
            SysCall::OpenService { .. } => true,
            SysCall::StartService { .. } => true,
            SysCall::QueryServiceStatus { .. } => true,
            SysCall::Sleep { .. } => true,
            SysCall::CloseServiceHandle { .. } => true,
            _ => false,
        }
    }

    /// Whether the request resolves a privilege or changes one on a token.
    pub open spec fn is_privilege_call(self) -> bool {
        match self {
            SysCall::LookupPrivilegeValue { .. } => true,
            SysCall::AdjustTokenPrivilege { .. } => true,
            _ => false,
        }
    }

    /// Whether the request resumes a thread.
    pub open spec fn is_resume(self) -> bool {
        self is ResumeThread
    }

    /// Whether the request creates a process.
    pub open spec fn is_creation(self) -> bool {
        self is CreateProcess
    }
}

impl Reply {
    /// The handle that an opening call obtained: the raw value of a
    /// [`Reply::Handle`] that is not null.
    pub open spec fn spec_handle(self) -> Option<usize> {
        match self {
            Reply::Handle { raw } => if raw != 0 {
                Some(raw)
            } else {
                None
            },
            _ => None,
        }
    }

    /// The handle that an opening call obtained, if it obtained one.
    #[verifier::when_used_as_spec(spec_handle)]
    pub fn handle(self) -> (h: Option<usize>)
        ensures
            h == self.spec_handle(),
    {
        match self {
            Reply::Handle { raw } => if raw != 0 {
                Some(raw)
            } else {
                None
            },
            _ => None,
        }
    }

    /// The error code to report when this answer is not the success that was
    /// hoped for: the code of a [`Reply::Failed`], and 0 for an answer of any
    /// other shape.
    pub open spec fn spec_error_code(self) -> u32 {
        match self {
            Reply::Failed { code } => code,
            _ => 0,
        }
    }

    /// The error code to report when this answer is not the success that was
    /// hoped for.
    #[verifier::when_used_as_spec(spec_error_code)]
    pub fn error_code(self) -> (code: u32)
        ensures
            code == self.spec_error_code(),
    {
        match self {
            Reply::Failed { code } => code,
            _ => 0,
        }
    }

    /// Whether a call without a result succeeded.
    pub open spec fn spec_is_done(self) -> bool {
        self == Reply::Done
    }

    /// Whether a call without a result succeeded.
    #[verifier::when_used_as_spec(spec_is_done)]
    pub fn is_done(self) -> (b: bool)
        ensures
            b == self.spec_is_done(),
    {
        match self {
            Reply::Done => true,
            _ => false,
        }
    }
}

} // verus!
