//! The services as callers name them. Each begins one of the crate's state
//! machines; none talks to the operating system by itself.

use vstd::prelude::*;
use vstd::string::StringExecFns;
use crate::elevation::{Completion, Elevation, ElevationError};
use crate::error::{ElevateError, ElevateResult, TiError, TiResult, WindowsError, WindowsErrorKind};
use crate::models::{PrivilegeInfo, ProcessInfo, TokenHandle};
use crate::privilege::{
    all_token_privileges, is_privilege_table, PrivilegeChange, PrivilegeSweep,
};
use crate::process::{ElevatedProcessFactory, ProcessLifecycle};
use crate::report::{is_verdict, verdict};
use crate::service::{ServiceLocator, SERVICE_NAME};
use crate::syscall::Reply;
use crate::text::{blank, join_spaced, spaced, texts};
use crate::token::{SecurityContext, ThreadPrivilege, DEBUG_PRIVILEGE};

verus! {

/// What can be done with processes.
pub trait ProcessService {
    /// Begins to create a suspended process that runs `command`.
    fn create_process(&self, command: &str) -> ElevatedProcessFactory;

    /// Begins to resume a suspended process.
    fn resume_process(&self, process: ProcessInfo) -> ProcessLifecycle;

    /// Begins to wait, without bound, for a process to end.
    fn wait_for_exit(&self, process: ProcessInfo) -> ProcessLifecycle;
}

/// What a process record can be asked.
pub trait ProcessExt {
    /// Begins to wait, without bound, for the process to end.
    fn wait_for_exit(self) -> ProcessLifecycle;

    /// Begins to probe whether the process still runs.
    fn is_running(self) -> ProcessLifecycle;
}

/// What can be done with privileges.
pub trait PrivilegeService {
    /// Begins to enable the privilege called `name` for the calling thread.
    fn set_privilege(&self, name: &str) -> ThreadPrivilege;

    /// Begins to enable every known privilege on `token`.
    fn set_all_privileges(&self, token: TokenHandle) -> PrivilegeSweep;

    /// Lists the known privileges with what the lookups found.
    fn get_privileges(&self, token: Reply, lookups: &Vec<Reply>) -> TiResult<Vec<PrivilegeInfo>>;

    /// Begins to enable the debug privilege for the calling thread.
    fn enable_debug_privilege(&self) -> ThreadPrivilege;
}

/// The process service of this operating system.
pub struct WindowsProcessService;

impl WindowsProcessService {
    pub fn new() -> (service: WindowsProcessService)
        ensures
            service == WindowsProcessService,
    {
        WindowsProcessService
    }

    /// Judges the result of a call that reports failure as 0: success for any
    /// other result, and for 0 an error of the process part that carries the
    /// thread's last error and says what was being done.
    pub fn check_win32(result: i32, context: &str, last_error: &WindowsError) -> (r: ElevateResult<
        (),
    >)
        ensures
            result != 0 ==> r is Ok,
            result == 0 ==> (r matches Err(ElevateError::Windows { kind, code, context: c })
                && kind == WindowsErrorKind::ProcessOperation && code == last_error.code && c@
                == context@),
    {
        if result == 0 {
            Err(last_error.to_elevate_error(WindowsErrorKind::ProcessOperation, context))
        } else {
            Ok(())
        }
    }
}

impl ProcessService for WindowsProcessService {
    fn create_process(&self, command: &str) -> (m: ElevatedProcessFactory)
        ensures
            m matches ElevatedProcessFactory::CreatingPlain { command_line } && command_line@
                == command@,
    {
        ElevatedProcessFactory::create_suspended(String::from_str(command))
    }

    fn resume_process(&self, process: ProcessInfo) -> (m: ProcessLifecycle)
        ensures
            m == ProcessLifecycle::resume_start(process),
    {
        ProcessLifecycle::resume(process)
    }

    fn wait_for_exit(&self, process: ProcessInfo) -> (m: ProcessLifecycle)
        ensures
            m == ProcessLifecycle::wait_start(process, None),
    {
        ProcessLifecycle::wait_for_exit(process, None)
    }
}

impl ProcessExt for ProcessInfo {
    fn wait_for_exit(self) -> (m: ProcessLifecycle)
        ensures
            m == ProcessLifecycle::wait_start(self, None),
    {
        ProcessLifecycle::wait_for_exit(self, None)
    }

    fn is_running(self) -> (m: ProcessLifecycle)
        ensures
            m == ProcessLifecycle::probe_start(self),
    {
        ProcessLifecycle::is_running(self)
    }
}

/// Whether `m` is the beginning of a run of `command_line` under the host
/// service, with the whole privilege table to enable and `timeout` as the
/// bound of the wait.
pub open spec fn begins_run(m: Elevation, command_line: Seq<char>, timeout: Option<u32>) -> bool {
    if blank(command_line) {
        m == (Elevation::Finished { outcome: Err(ElevationError::EmptyCommand) })
    } else {
        &&& m matches Elevation::Locating { locator, command_line: line, privileges, timeout: t }
        &&& locator matches ServiceLocator::Connecting { name }
        &&& name@ == SERVICE_NAME@
        &&& line@ == command_line
        &&& is_privilege_table(privileges@)
        &&& t == timeout
    }
}

/// Begins a run of `command_line` under the host service.
fn begin_run(command_line: String, timeout: Option<u32>) -> (m: Elevation)
    ensures
        begins_run(m, command_line@, timeout),
{
    Elevation::begin(
        command_line,
        all_token_privileges(),
        String::from_str(SERVICE_NAME),
        timeout,
    )
}

/// Creates processes and runs commands.
pub struct ProcessManager {
    pub service: WindowsProcessService,
}

impl ProcessManager {
    pub fn new() -> (manager: ProcessManager)
        ensures
            manager == (ProcessManager { service: WindowsProcessService }),
    {
        ProcessManager { service: WindowsProcessService::new() }
    }

    /// Begins to create a suspended process that runs `command`.
    pub fn create_suspended_process(&self, command: &str) -> (m: ElevatedProcessFactory)
        ensures
            m matches ElevatedProcessFactory::CreatingPlain { command_line } && command_line@
                == command@,
    {
        self.service.create_process(command)
    }

    /// Begins to run `command` under the host service and to wait, without
    /// bound, for it to end.
    pub fn execute_process(&self, command: &str) -> (m: Elevation)
        ensures
            begins_run(m, command@, None),
    {
        begin_run(String::from_str(command), None)
    }
}

/// Changes privileges on one token.
pub struct PrivilegeManager {
    pub token_handle: usize,
}

impl PrivilegeManager {
    /// A manager for the token behind `token_handle`, which stays the
    /// caller's.
    pub fn new(token_handle: usize) -> (manager: PrivilegeManager)
        ensures
            manager.token_handle == token_handle,
    {
        PrivilegeManager { token_handle }
    }

    /// Begins to enable `privilege`.
    pub fn enable(&self, privilege: &str) -> (m: PrivilegeChange)
        ensures
            m matches PrivilegeChange::LookingUp { token, name, enable } && token
                == self.token_handle && name@ == privilege@ && enable,
    {
        PrivilegeChange::enable(self.token_handle, String::from_str(privilege))
    }

    /// Begins to disable `privilege`.
    pub fn disable(&self, privilege: &str) -> (m: PrivilegeChange)
        ensures
            m matches PrivilegeChange::LookingUp { token, name, enable } && token
                == self.token_handle && name@ == privilege@ && !enable,
    {
        PrivilegeChange::disable(self.token_handle, String::from_str(privilege))
    }
}

/// Whether `list` is the privilege table with what `lookups` found: entry by
/// entry the table's name, marked as enabled where the lookup of that name
/// resolved it, and without a description.
pub open spec fn lists_privileges(list: Seq<PrivilegeInfo>, lookups: Seq<Reply>) -> bool {
    &&& list.len() == crate::privilege::privilege_table().len()
    &&& forall|i: int|
        0 <= i < list.len() ==> {
            &&& (#[trigger] list[i]).name@ == crate::privilege::privilege_table()[i]
            &&& list[i].enabled == (i < lookups.len() && lookups[i] is Resolved)
            &&& list[i].description is None
        }
}

/// The privilege service of this operating system.
pub struct WindowsPrivilegeService;

impl WindowsPrivilegeService {
    pub fn new() -> (service: WindowsPrivilegeService)
        ensures
            service == WindowsPrivilegeService,
    {
        WindowsPrivilegeService
    }
}

impl PrivilegeService for WindowsPrivilegeService {
    fn set_privilege(&self, name: &str) -> (m: ThreadPrivilege)
        ensures
            m matches ThreadPrivilege::Impersonating { name: n } && n@ == name@,
    {
        ThreadPrivilege::set_privilege(String::from_str(name))
    }

    fn set_all_privileges(&self, token: TokenHandle) -> (m: PrivilegeSweep)
        ensures
            m matches PrivilegeSweep::Enabling { token: t, names, index, change, tally, last }
                && t == token.0 && is_privilege_table(names@) && m == PrivilegeSweep::start(
                token.0,
                names,
            ),
    {
        PrivilegeSweep::enable_all_known(token.0, all_token_privileges())
    }

    /// `token` is the answer to the request for the thread's token, and
    /// `lookups` are the answers to the lookups of the table's names, in the
    /// table's order. Without a token there is no list; a name whose lookup
    /// is missing counts as not found.
    fn get_privileges(&self, token: Reply, lookups: &Vec<Reply>) -> (r: TiResult<
        Vec<PrivilegeInfo>,
    >)
        ensures
            token.handle() is None ==> (r matches Err(TiError::PrivilegeError(detail))
                && detail@ == "Failed to open thread token"@),
            token.handle() is Some ==> (r matches Ok(list) && lists_privileges(list@, lookups@)),
    {
        if token.handle().is_none() {
            return Err(TiError::PrivilegeError(String::from_str("Failed to open thread token")));
        }
        let names = all_token_privileges();
        let mut list: Vec<PrivilegeInfo> = Vec::new();
        let mut i: usize = 0;
        while i < names.len()
            invariant
                i <= names.len(),
                is_privilege_table(names@),
                list@.len() == i,
                forall|j: int|
                    0 <= j < i ==> {
                        &&& (#[trigger] list@[j]).name@ == crate::privilege::privilege_table()[j]
                        &&& list@[j].enabled == (j < lookups@.len() && lookups@[j] is Resolved)
                        &&& list@[j].description is None
                    },
            decreases names.len() - i,
        {
            let found = if i < lookups.len() {
                match lookups[i] {
                    Reply::Resolved { .. } => true,
                    _ => false,
                }
            } else {
                false
            };
            list.push(PrivilegeInfo { name: names[i].clone(), enabled: found, description: None });
            i += 1;
        }
        Ok(list)
    }

    fn enable_debug_privilege(&self) -> (m: ThreadPrivilege)
        ensures
            m matches ThreadPrivilege::Impersonating { name } && name@ == DEBUG_PRIVILEGE@,
    {
        ThreadPrivilege::set_privilege(String::from_str(DEBUG_PRIVILEGE))
    }
}

/// The words of a command line: the command, then its arguments.
pub open spec fn command_words(command: Seq<char>, args: Seq<String>) -> Seq<Seq<char>> {
    seq![command] + texts(args)
}

/// Runs commands under the host service on behalf of a caller whose own
/// standing is given by a security context.
pub struct TrustedInstallerElevation<'a> {
    context: &'a SecurityContext,
    timeout: Option<u32>,
}

impl<'a> TrustedInstallerElevation<'a> {
    /// Runs are waited for without bound until a bound is set.
    pub fn new(context: &'a SecurityContext) -> (elevation: TrustedInstallerElevation<'a>)
        ensures
            elevation.timeout() is None,
    {
        TrustedInstallerElevation { context, timeout: None }
    }

    /// The bound of the wait for a command, in milliseconds.
    pub closed spec fn timeout(&self) -> Option<u32> {
        self.timeout
    }

    /// Sets the bound of the wait for a command, in milliseconds.
    pub fn with_timeout(self, timeout: Option<u32>) -> (elevation: TrustedInstallerElevation<'a>)
        ensures
            elevation.timeout() == timeout,
    {
        TrustedInstallerElevation { context: self.context, timeout }
    }

    /// Begins to run `command` with `args` under the host service. The
    /// command line is the command followed by its arguments, joined by
    /// single spaces.
    pub fn execute(&self, command: &str, args: &Vec<String>) -> (m: Elevation)
        ensures
            begins_run(m, spaced(command_words(command@, args@)), self.timeout()),
    {
        let mut words: Vec<String> = Vec::new();
        words.push(String::from_str(command));
        let mut i: usize = 0;
        while i < args.len()
            invariant
                i <= args.len(),
                words@.len() == i + 1,
                words@[0]@ == command@,
                forall|j: int| 0 <= j < i ==> (#[trigger] words@[j + 1])@ == args@[j]@,
            decreases args.len() - i,
        {
            words.push(args[i].clone());
            i += 1;
        }
        proof {
            let joined = command_words(command@, args@);
            assert(joined.len() == words@.len());
            assert forall|k: int| 0 <= k < words@.len() implies texts(words@)[k] == joined[k] by {
                if k > 0 {
                    assert(words@[(k - 1) + 1]@ == args@[k - 1]@);
                }
            }
            assert(texts(words@) =~= joined);
        }
        begin_run(join_spaced(&words), self.timeout)
    }
}

/// Runs commands under the host service and judges how they ended.
pub struct TrustedInstallerService {
    pub privilege_service: WindowsPrivilegeService,
}

impl TrustedInstallerService {
    pub fn new(privilege_service: WindowsPrivilegeService) -> (service: TrustedInstallerService)
        ensures
            service == (TrustedInstallerService { privilege_service }),
    {
        TrustedInstallerService { privilege_service }
    }

    /// Begins to run `command` under the host service and to wait, without
    /// bound, for it to end. A blank command is refused at once.
    pub fn run_command(&self, command: &str) -> (m: Elevation)
        ensures
            begins_run(m, command@, None),
    {
        begin_run(String::from_str(command), None)
    }

    /// Judges a finished run: success when the command ended with code 0,
    /// an error otherwise.
    pub fn execute_and_wait(&self, outcome: &Result<Completion, ElevationError>) -> (r: TiResult<()>)
        ensures
            is_verdict(*outcome, r),
    {
        verdict(outcome)
    }
}

} // verus!
