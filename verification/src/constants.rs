//! Numeric constants of the operating system's service, process and token
//! interfaces, and the limits this crate works with.

use vstd::prelude::*;

verus! {

/// Number of entries in the privilege table.
pub const MAX_PRIVILEGES: usize = 36;

/// Right to connect to the service control manager.
pub const SC_MANAGER_CONNECT: u32 = 0x0001;

/// Right to query a service's status.
pub const SERVICE_QUERY_STATUS: u32 = 0x0004;

/// Right to start a service.
pub const SERVICE_START: u32 = 0x0010;

/// Rights requested on the host service: start and query status.
pub const SERVICE_ACCESS: u32 = 0x0014;

/// Service state: the service is starting.
pub const SERVICE_START_PENDING: u32 = 2;

/// Service state: the service is running.
pub const SERVICE_RUNNING: u32 = 4;

/// Error code: an instance of the service is already running.
pub const ERROR_SERVICE_ALREADY_RUNNING: u32 = 1056;

/// Error code: the named privilege does not exist on this system.
pub const ERROR_NO_SUCH_PRIVILEGE: u32 = 1313;

/// Milliseconds between two status queries while the service is starting.
pub const POLL_INTERVAL_MS: u32 = 500;

/// Number of status queries answered "start pending" after which the wait is
/// given up.
pub const MAX_POLL_ATTEMPTS: u32 = 20;

/// Right to name a process as the parent of a new process.
pub const PROCESS_CREATE_PROCESS: u32 = 0x0080;

/// Creation flag: the primary thread of the new process starts suspended.
pub const CREATE_SUSPENDED: u32 = 0x0000_0004;

/// Creation flag: the new process gets a console of its own.
pub const CREATE_NEW_CONSOLE: u32 = 0x0000_0010;

/// Creation flag: the startup descriptor carries an attribute list.
pub const EXTENDED_STARTUPINFO_PRESENT: u32 = 0x0008_0000;

/// Flags of every process created with a spoofed parent: suspended, extended
/// startup descriptor, fresh console.
pub const ELEVATED_CREATION_FLAGS: u32 = 0x0008_0014;

/// Number of entries in the attribute list of a spoofed-parent creation.
pub const PARENT_ATTRIBUTE_COUNT: u32 = 1;

/// Token right: query.
pub const TOKEN_QUERY: u32 = 0x0008;

/// Token right: adjust privileges.
pub const TOKEN_ADJUST_PRIVILEGES: u32 = 0x0020;

/// Rights requested on a token: adjust privileges and query.
pub const TOKEN_ACCESS: u32 = 0x0028;

/// Attribute that marks a privilege as enabled.
pub const SE_PRIVILEGE_ENABLED: u32 = 0x0000_0002;

/// Exit code that a process reports while it is still running.
pub const STILL_ACTIVE: u32 = 259;

/// Proves that the combined constants are the unions of their parts, and that
/// the creation flags hold the suspended bit.
pub proof fn combined_constants()
    ensures
        SERVICE_ACCESS == SERVICE_START | SERVICE_QUERY_STATUS,
        TOKEN_ACCESS == TOKEN_ADJUST_PRIVILEGES | TOKEN_QUERY,
        ELEVATED_CREATION_FLAGS == CREATE_SUSPENDED | EXTENDED_STARTUPINFO_PRESENT
            | CREATE_NEW_CONSOLE,
        ELEVATED_CREATION_FLAGS & CREATE_SUSPENDED == CREATE_SUSPENDED,
{
    assert(0x0014u32 == 0x0010u32 | 0x0004u32) by (bit_vector);
    assert(0x0028u32 == 0x0020u32 | 0x0008u32) by (bit_vector);
    assert(0x0008_0014u32 == 0x0000_0004u32 | 0x0008_0000u32 | 0x0000_0010u32) by (bit_vector);
    assert(0x0008_0014u32 & 0x0000_0004u32 == 0x0000_0004u32) by (bit_vector);
}

} // verus!
