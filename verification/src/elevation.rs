//! The whole run: find the host service, create the command's process under
//! it, raise the process's privileges, resume it, wait for it.

use vstd::prelude::*;
use vstd::multiset::Multiset;
use crate::constants::{ELEVATED_CREATION_FLAGS, PROCESS_CREATE_PROCESS, SERVICE_RUNNING};
use crate::handle::{acquired_by, released_by, HandleGuard};
use crate::machine::{
    acquired, after, after_take_step, call_at, calls, finished_prefix_decides,
    finished_stays_finished, finishes_within_its_steps, nothing_held_means_all_released,
    released, stays_well_formed,
    Machine,
};
use crate::models::{object_guard, ProcessInfo, ProcessState};
use crate::privilege::{PrivilegeError, PrivilegeOutcome, PrivilegeTally};
use crate::process::{
    ElevatedProcessFactory, LifecycleError, LifecycleOutcome, ProcessCreationError,
    ProcessLifecycle,
};
use crate::service::{
    stuck_in_start_pending, stuck_service_times_out, ServiceError, ServiceLocator,
};
use crate::syscall::{Reply, SysCall};
use crate::text::{blank, is_blank};
use crate::token::{escalation_step, ProcessEscalation, TokenError};

verus! {

/// Why a run ended without the command having run to its end. Each variant
/// names the stage that failed.
#[derive(Clone, Copy, Debug, PartialEq, Eq, Structural)]
pub enum ElevationError {
    /// The command is empty or holds white space only. Nothing was asked of
    /// the operating system.
    EmptyCommand,
    /// The host service's process was not found.
    Service(ServiceError),
    /// The command's process was not created.
    Creation(ProcessCreationError),
    /// The new process's token was not opened. The process stays suspended.
    Token(TokenError),
    /// The process was not resumed, or the wait for it failed.
    Lifecycle(LifecycleError),
}

/// How a run ended that resumed the command's process.
#[derive(Clone, Copy, Debug, PartialEq, Eq, Structural)]
pub struct Completion {
    /// The command's exit code; `None` when the wait's bound elapsed before
    /// the command terminated.
    pub exit: Option<u32>,
    /// How the privileges of the sweep ended.
    pub privileges: PrivilegeTally,
}

/// The exit code in the outcome of a wait.
pub open spec fn exit_of(outcome: LifecycleOutcome) -> Option<u32> {
    match outcome {
        LifecycleOutcome::Exited { code } => Some(code),
        _ => None,
    }
}

/// The run's progress. Each state but the last waits on one request.
#[derive(Debug, PartialEq, Eq)]
pub enum Elevation {
    /// The host service is being located.
    Locating {
        locator: ServiceLocator,
        command_line: String,
        privileges: Vec<String>,
        timeout: Option<u32>,
    },
    /// The command's process is being created under the host service.
    Creating { factory: ElevatedProcessFactory, privileges: Vec<String>, timeout: Option<u32> },
    /// The new process's privileges are being raised.
    Escalating { record: ProcessInfo, escalation: ProcessEscalation, timeout: Option<u32> },
    /// The process is being resumed.
    Resuming { lifecycle: ProcessLifecycle, tally: PrivilegeTally, timeout: Option<u32> },
    /// The process runs; the run waits for it.
    Waiting { lifecycle: ProcessLifecycle, tally: PrivilegeTally },
    /// The outcome is known; the thread handle is being released.
    ClosingThread { record: ProcessInfo, outcome: Result<Completion, ElevationError> },
    /// The outcome is known; the process handle is being released.
    ClosingProcess { handle: HandleGuard, outcome: Result<Completion, ElevationError> },
    /// Every handle is released.
    Finished { outcome: Result<Completion, ElevationError> },
}

impl Elevation {
    /// The state a run is in once its locator is in the given state.
    pub open spec fn spec_located(
        locator: ServiceLocator,
        command_line: String,
        privileges: Vec<String>,
        timeout: Option<u32>,
    ) -> Elevation {
        match locator {
            ServiceLocator::Finished { outcome } => match outcome {
                Ok(pid) => Elevation::Creating {
                    factory: ElevatedProcessFactory::start(pid, command_line),
                    privileges,
                    timeout,
                },
                Err(e) => Elevation::Finished { outcome: Err(ElevationError::Service(e)) },
            },
            _ => Elevation::Locating { locator, command_line, privileges, timeout },
        }
    }

    /// The state a run is in once its factory is in the given state.
    pub open spec fn spec_created(
        factory: ElevatedProcessFactory,
        privileges: Vec<String>,
        timeout: Option<u32>,
    ) -> Elevation {
        match factory {
            ElevatedProcessFactory::Finished { outcome } => match outcome {
                Ok(record) => Elevation::Escalating {
                    record,
                    escalation: ProcessEscalation::start(record.handle.raw, privileges),
                    timeout,
                },
                Err(e) => Elevation::Finished { outcome: Err(ElevationError::Creation(e)) },
            },
            _ => Elevation::Creating { factory, privileges, timeout },
        }
    }

    /// The state a run is in once its escalation is in the given state.
    pub open spec fn spec_escalated(
        record: ProcessInfo,
        escalation: ProcessEscalation,
        timeout: Option<u32>,
    ) -> Elevation {
        match escalation {
            ProcessEscalation::Finished { outcome } => match outcome {
                Ok(tally) => Elevation::spec_resumed(
                    ProcessLifecycle::resume_start(record),
                    tally,
                    timeout,
                ),
                Err(e) => Elevation::ClosingThread {
                    record,
                    outcome: Err(ElevationError::Token(e)),
                },
            },
            _ => Elevation::Escalating { record, escalation, timeout },
        }
    }

    /// The state a run is in once its resume operation is in the given
    /// state.
    pub open spec fn spec_resumed(
        lifecycle: ProcessLifecycle,
        tally: PrivilegeTally,
        timeout: Option<u32>,
    ) -> Elevation {
        match lifecycle {
            ProcessLifecycle::Finished { record, outcome } => match outcome {
                Ok(_) => Elevation::Waiting {
                    lifecycle: ProcessLifecycle::wait_start(record, timeout),
                    tally,
                },
                Err(e) => Elevation::ClosingThread {
                    record,
                    outcome: Err(ElevationError::Lifecycle(e)),
                },
            },
            _ => Elevation::Resuming { lifecycle, tally, timeout },
        }
    }

    /// The state a run is in once its wait is in the given state.
    pub open spec fn spec_waited(lifecycle: ProcessLifecycle, tally: PrivilegeTally) -> Elevation {
        match lifecycle {
            ProcessLifecycle::Finished { record, outcome } => match outcome {
                Ok(found) => Elevation::ClosingThread {
                    record,
                    outcome: Ok(Completion { exit: exit_of(found), privileges: tally }),
                },
                Err(e) => Elevation::ClosingThread {
                    record,
                    outcome: Err(ElevationError::Lifecycle(e)),
                },
            },
            _ => Elevation::Waiting { lifecycle, tally },
        }
    }

    /// The run before its first request, for a command line that is known to
    /// be blank or not: over at once for a blank one, locating the service
    /// otherwise.
    pub open spec fn start_checked(
        is_blank: bool,
        command_line: String,
        privileges: Vec<String>,
        service_name: String,
        timeout: Option<u32>,
    ) -> Elevation {
        if is_blank {
            Elevation::Finished { outcome: Err(ElevationError::EmptyCommand) }
        } else {
            Elevation::Locating {
                locator: ServiceLocator::start(service_name),
                command_line,
                privileges,
                timeout,
            }
        }
    }

    /// The run before its first request: over at once for a blank command,
    /// locating the service otherwise.
    pub open spec fn start(
        command_line: String,
        privileges: Vec<String>,
        service_name: String,
        timeout: Option<u32>,
    ) -> Elevation {
        Elevation::start_checked(
            blank(command_line@),
            command_line,
            privileges,
            service_name,
            timeout,
        )
    }

    /// Begins a run for a command line of which the caller says whether it is
    /// blank.
    pub fn begin_checked(
        is_blank: bool,
        command_line: String,
        privileges: Vec<String>,
        service_name: String,
        timeout: Option<u32>,
    ) -> (m: Elevation)
        ensures
            m == Elevation::start_checked(
                is_blank,
                command_line,
                privileges,
                service_name,
                timeout,
            ),
    {
        if is_blank {
            Elevation::Finished { outcome: Err(ElevationError::EmptyCommand) }
        } else {
            Elevation::Locating {
                locator: ServiceLocator::locate_and_start(service_name),
                command_line,
                privileges,
                timeout,
            }
        }
    }

    /// Begins a run: `command_line` is to run as a child of the service
    /// `service_name`, with each privilege of `privileges` enabled before it
    /// starts, and is waited for without bound (`None`) or for at most
    /// `timeout` milliseconds. A blank command line is refused before
    /// anything is asked of the operating system.
    pub fn begin(
        command_line: String,
        privileges: Vec<String>,
        service_name: String,
        timeout: Option<u32>,
    ) -> (m: Elevation)
        ensures
            m == Elevation::start(command_line, privileges, service_name, timeout),
    {
        let refused = is_blank(command_line.as_str());
        Elevation::begin_checked(refused, command_line, privileges, service_name, timeout)
    }

    /// The result of a finished run, `None` while a request is pending.
    pub open spec fn spec_result(&self) -> Option<Result<Completion, ElevationError>> {
        match *self {
            Elevation::Finished { outcome } => Some(outcome),
            _ => None,
        }
    }

    /// The result of a finished run, `None` while a request is pending.
    #[verifier::when_used_as_spec(spec_result)]
    pub fn result(&self) -> (r: Option<Result<Completion, ElevationError>>)
        ensures
            r == self.spec_result(),
    {
        match self {
            Elevation::Finished { outcome } => Some(*outcome),
            _ => None,
        }
    }

    /// How the privilege ended that the latest answer settled, if it settled
    /// one: what an embedding program writes to its log.
    pub fn last_privilege_outcome(&self) -> (last: &Option<
        Result<PrivilegeOutcome, PrivilegeError>,
    >)
        ensures
            *last == (match *self {
                Elevation::Escalating { escalation, .. } => escalation.spec_last_outcome(),
                _ => None,
            }),
    {
        match self {
            Elevation::Escalating { escalation, .. } => escalation.last_outcome(),
            _ => &None,
        }
    }

    /// How far the run has come, as a number that never goes down.
    pub open spec fn stage(&self) -> nat {
        match *self {
            Elevation::Locating { .. } => 0,
            Elevation::Creating { .. } => 1,
            Elevation::Escalating { .. } => 2,
            Elevation::Resuming { .. } => 3,
            Elevation::Waiting { .. } => 4,
            Elevation::ClosingThread { .. } => 5,
            Elevation::ClosingProcess { .. } => 6,
            Elevation::Finished { .. } => 7,
        }
    }

    fn located(
        locator: ServiceLocator,
        command_line: String,
        privileges: Vec<String>,
        timeout: Option<u32>,
    ) -> (m: Elevation)
        ensures
            m == Elevation::spec_located(locator, command_line, privileges, timeout),
    {
        match locator {
            ServiceLocator::Finished { outcome } => match outcome {
                Ok(pid) => Elevation::Creating {
                    factory: ElevatedProcessFactory::create_with_parent(pid, command_line),
                    privileges,
                    timeout,
                },
                Err(e) => Elevation::Finished { outcome: Err(ElevationError::Service(e)) },
            },
            other => Elevation::Locating { locator: other, command_line, privileges, timeout },
        }
    }

    fn created(
        factory: ElevatedProcessFactory,
        privileges: Vec<String>,
        timeout: Option<u32>,
    ) -> (m: Elevation)
        ensures
            m == Elevation::spec_created(factory, privileges, timeout),
    {
        match factory {
            ElevatedProcessFactory::Finished { outcome } => match outcome {
                Ok(record) => {
                    let process = record.handle.raw;
                    Elevation::Escalating {
                        record,
                        escalation: ProcessEscalation::set_all_privileges(process, privileges),
                        timeout,
                    }
                },
                Err(e) => Elevation::Finished { outcome: Err(ElevationError::Creation(e)) },
            },
            other => Elevation::Creating { factory: other, privileges, timeout },
        }
    }

    fn escalated(record: ProcessInfo, escalation: ProcessEscalation, timeout: Option<u32>) -> (m:
        Elevation)
        ensures
            m == Elevation::spec_escalated(record, escalation, timeout),
    {
        match escalation {
            ProcessEscalation::Finished { outcome } => match outcome {
                Ok(tally) => Elevation::resumed(ProcessLifecycle::resume(record), tally, timeout),
                Err(e) => Elevation::ClosingThread {
                    record,
                    outcome: Err(ElevationError::Token(e)),
                },
            },
            other => Elevation::Escalating { record, escalation: other, timeout },
        }
    }

    fn resumed(lifecycle: ProcessLifecycle, tally: PrivilegeTally, timeout: Option<u32>) -> (m:
        Elevation)
        ensures
            m == Elevation::spec_resumed(lifecycle, tally, timeout),
    {
        match lifecycle {
            ProcessLifecycle::Finished { record, outcome } => match outcome {
                Ok(_) => Elevation::Waiting {
                    lifecycle: ProcessLifecycle::wait_for_exit(record, timeout),
                    tally,
                },
                Err(e) => Elevation::ClosingThread {
                    record,
                    outcome: Err(ElevationError::Lifecycle(e)),
                },
            },
            other => Elevation::Resuming { lifecycle: other, tally, timeout },
        }
    }

    fn waited(lifecycle: ProcessLifecycle, tally: PrivilegeTally) -> (m: Elevation)
        ensures
            m == Elevation::spec_waited(lifecycle, tally),
    {
        match lifecycle {
            ProcessLifecycle::Finished { record, outcome } => match outcome {
                Ok(found) => {
                    let exit = match found {
                        LifecycleOutcome::Exited { code } => Some(code),
                        _ => None,
                    };
                    Elevation::ClosingThread {
                        record,
                        outcome: Ok(Completion { exit, privileges: tally }),
                    }
                },
                Err(e) => Elevation::ClosingThread {
                    record,
                    outcome: Err(ElevationError::Lifecycle(e)),
                },
            },
            other => Elevation::Waiting { lifecycle: other, tally },
        }
    }
}

impl Machine for Elevation {
    open spec fn spec_pending(&self) -> Option<SysCall> {
        match *self {
            Elevation::Locating { locator, .. } => locator.spec_pending(),
            Elevation::Creating { factory, .. } => factory.spec_pending(),
            Elevation::Escalating { escalation, .. } => escalation.spec_pending(),
            Elevation::Resuming { lifecycle, .. } => lifecycle.spec_pending(),
            Elevation::Waiting { lifecycle, .. } => lifecycle.spec_pending(),
            Elevation::ClosingThread { record, .. } => Some(record.thread_handle.closing_call()),
            Elevation::ClosingProcess { handle, .. } => Some(handle.closing_call()),
            Elevation::Finished { .. } => None,
        }
    }

    open spec fn spec_advance(self, reply: Reply) -> Elevation {
        match self {
            Elevation::Locating { locator, command_line, privileges, timeout } => {
                Elevation::spec_located(
                    locator.spec_advance(reply),
                    command_line,
                    privileges,
                    timeout,
                )
            },
            Elevation::Creating { factory, privileges, timeout } => Elevation::spec_created(
                factory.spec_advance(reply),
                privileges,
                timeout,
            ),
            Elevation::Escalating { record, escalation, timeout } => Elevation::spec_escalated(
                record,
                escalation.spec_advance(reply),
                timeout,
            ),
            Elevation::Resuming { lifecycle, tally, timeout } => Elevation::spec_resumed(
                lifecycle.spec_advance(reply),
                tally,
                timeout,
            ),
            Elevation::Waiting { lifecycle, tally } => Elevation::spec_waited(
                lifecycle.spec_advance(reply),
                tally,
            ),
            Elevation::ClosingThread { record, outcome } => Elevation::ClosingProcess {
                handle: record.handle,
                outcome,
            },
            Elevation::ClosingProcess { handle, outcome } => Elevation::Finished { outcome },
            Elevation::Finished { outcome } => Elevation::Finished { outcome },
        }
    }

    /// The part that is at work is well-formed and has not finished, and the
    /// record is that of a suspended process until it is resumed.
    open spec fn well_formed(&self) -> bool {
        match *self {
            Elevation::Locating { locator, .. } => locator.well_formed() && !(locator is Finished),
            Elevation::Creating { factory, .. } => factory.well_formed() && !(factory is Finished)
                && !(factory is CreatingPlain),
            Elevation::Escalating { record, escalation, .. } => {
                &&& record.well_formed()
                &&& record.state == ProcessState::Suspended
                &&& escalation.well_formed()
                &&& !(escalation is Finished)
            },
            Elevation::Resuming { lifecycle, .. } => lifecycle.well_formed()
                && lifecycle is Resuming,
            Elevation::Waiting { lifecycle, .. } => lifecycle.well_formed() && (lifecycle is Waiting
                || lifecycle is ReadingExitCode),
            Elevation::ClosingThread { record, .. } => record.well_formed(),
            Elevation::ClosingProcess { handle, .. } => handle == object_guard(handle.raw),
            Elevation::Finished { .. } => true,
        }
    }

    /// The steps of the part at work and of every part that may follow it.
    open spec fn steps_left(&self) -> nat {
        match *self {
            Elevation::Locating { locator, privileges, .. } => locator.steps_left() + 2
                * privileges@.len() + 16,
            Elevation::Creating { factory, privileges, .. } => factory.steps_left() + 2
                * privileges@.len() + 7,
            Elevation::Escalating { escalation, .. } => escalation.steps_left() + 5,
            Elevation::Resuming { lifecycle, .. } => lifecycle.steps_left() + 4,
            Elevation::Waiting { lifecycle, .. } => lifecycle.steps_left() + 2,
            Elevation::ClosingThread { .. } => 2,
            Elevation::ClosingProcess { .. } => 1,
            Elevation::Finished { .. } => 0,
        }
    }

    open spec fn held(&self) -> Multiset<usize> {
        match *self {
            Elevation::Locating { locator, .. } => locator.held(),
            Elevation::Creating { factory, .. } => factory.held(),
            Elevation::Escalating { record, escalation, .. } => record.handles().add(
                escalation.held(),
            ),
            Elevation::Resuming { lifecycle, .. } => lifecycle.held(),
            Elevation::Waiting { lifecycle, .. } => lifecycle.held(),
            Elevation::ClosingThread { record, .. } => record.handles(),
            Elevation::ClosingProcess { handle, .. } => Multiset::singleton(handle.raw),
            Elevation::Finished { .. } => Multiset::empty(),
        }
    }

    proof fn finished_is_final(self, reply: Reply) {
    }

    proof fn advance_uses_a_step(self, reply: Reply) {
        match self {
            Elevation::Locating { locator, .. } => {
                locator.advance_uses_a_step(reply);
            },
            Elevation::Creating { factory, .. } => {
                factory.advance_uses_a_step(reply);
            },
            Elevation::Escalating { escalation, .. } => {
                escalation.advance_uses_a_step(reply);
            },
            Elevation::Resuming { lifecycle, .. } => {
                lifecycle.advance_uses_a_step(reply);
            },
            Elevation::Waiting { lifecycle, .. } => {
                lifecycle.advance_uses_a_step(reply);
            },
            _ => {},
        }
    }

    proof fn advance_keeps_well_formed(self, reply: Reply) {
        match self {
            Elevation::Locating { locator, .. } => {
                locator.advance_keeps_well_formed(reply);
            },
            Elevation::Creating { factory, .. } => {
                factory.advance_keeps_well_formed(reply);
            },
            Elevation::Escalating { escalation, .. } => {
                escalation.advance_keeps_well_formed(reply);
            },
            Elevation::Resuming { lifecycle, .. } => {
                lifecycle.advance_keeps_well_formed(reply);
            },
            Elevation::Waiting { lifecycle, .. } => {
                lifecycle.advance_keeps_well_formed(reply);
            },
            _ => {},
        }
    }

    proof fn advance_keeps_ledger(self, reply: Reply) {
        match self {
            Elevation::Locating { locator, .. } => {
                locator.advance_keeps_ledger(reply);
            },
            Elevation::Creating { factory, .. } => {
                factory.advance_keeps_ledger(reply);
            },
            Elevation::Escalating { escalation, .. } => {
                escalation.advance_keeps_ledger(reply);
            },
            Elevation::Resuming { lifecycle, .. } => {
                lifecycle.advance_keeps_ledger(reply);
            },
            Elevation::Waiting { lifecycle, .. } => {
                lifecycle.advance_keeps_ledger(reply);
            },
            _ => {},
        }
        assert(self.spec_advance(reply).held().add(released_by(self.spec_pending()))
            =~= self.held().add(acquired_by(self.spec_pending(), reply)));
    }

    fn pending(&self) -> (call: Option<SysCall>) {
        match self {
            Elevation::Locating { locator, .. } => locator.pending(),
            Elevation::Creating { factory, .. } => factory.pending(),
            Elevation::Escalating { escalation, .. } => escalation.pending(),
            Elevation::Resuming { lifecycle, .. } => lifecycle.pending(),
            Elevation::Waiting { lifecycle, .. } => lifecycle.pending(),
            Elevation::ClosingThread { record, .. } => Some(record.thread_handle.closing_call()),
            Elevation::ClosingProcess { handle, .. } => Some(handle.closing_call()),
            Elevation::Finished { .. } => None,
        }
    }

    fn advance(self, reply: Reply) -> (next: Elevation) {
        match self {
            Elevation::Locating { locator, command_line, privileges, timeout } => {
                Elevation::located(locator.advance(reply), command_line, privileges, timeout)
            },
            Elevation::Creating { factory, privileges, timeout } => Elevation::created(
                factory.advance(reply),
                privileges,
                timeout,
            ),
            Elevation::Escalating { record, escalation, timeout } => Elevation::escalated(
                record,
                escalation.advance(reply),
                timeout,
            ),
            Elevation::Resuming { lifecycle, tally, timeout } => Elevation::resumed(
                lifecycle.advance(reply),
                tally,
                timeout,
            ),
            Elevation::Waiting { lifecycle, tally } => Elevation::waited(
                lifecycle.advance(reply),
                tally,
            ),
            Elevation::ClosingThread { record, outcome } => {
                let ProcessInfo { handle, .. } = record;
                Elevation::ClosingProcess { handle, outcome }
            },
            Elevation::ClosingProcess { handle, outcome } => Elevation::Finished { outcome },
            Elevation::Finished { outcome } => Elevation::Finished { outcome },
        }
    }
}

/// A step never takes a run back to an earlier stage.
pub proof fn stage_never_decreases(m: Elevation, reply: Reply)
    ensures
        m.spec_advance(reply).stage() >= m.stage(),
{
}

/// The stage of a run after `j` answers is at least its stage after `i <= j`
/// answers.
pub proof fn stages_are_ordered(m: Elevation, replies: Seq<Reply>, i: int, j: int)
    requires
        0 <= i <= j <= replies.len(),
    ensures
        after(m, replies.take(i)).stage() <= after(m, replies.take(j)).stage(),
    decreases j - i,
{
    if i < j {
        stages_are_ordered(m, replies, i, j - 1);
        after_take_step(m, replies, j - 1);
        stage_never_decreases(after(m, replies.take(j - 1)), replies[j - 1]);
    }
}

/// Each kind of request belongs to one stage of a well-formed run: requests
/// to the service control manager to locating, the creation of the process
/// to creating, requests about privileges to escalating, and the request to
/// resume, and no other, to resuming.
pub proof fn requests_belong_to_stages(m: Elevation)
    requires
        m.well_formed(),
    ensures
        m.spec_pending() matches Some(call) ==> {
            &&& call.is_service_call() <==> m is Locating
            &&& call.is_creation() ==> m is Creating
            &&& call.is_privilege_call() ==> m is Escalating
            &&& call.is_resume() <==> m is Resuming
        },
{
}

/// Whether a state belongs to a run that is to enable `privileges`: it still
/// carries the list, or sweeps over it, or has counted an outcome for each of
/// its entries.
pub open spec fn raises(m: Elevation, privileges: Vec<String>) -> bool {
    match m {
        Elevation::Locating { privileges: p, .. } => p == privileges,
        Elevation::Creating { privileges: p, .. } => p == privileges,
        Elevation::Escalating { escalation, .. } => escalation.escalates(privileges),
        Elevation::Resuming { tally, .. } => tally.total() == privileges@.len(),
        Elevation::Waiting { tally, .. } => tally.total() == privileges@.len(),
        Elevation::ClosingThread { outcome, .. } => outcome matches Ok(done)
            ==> done.privileges.total() == privileges@.len(),
        Elevation::ClosingProcess { outcome, .. } => outcome matches Ok(done)
            ==> done.privileges.total() == privileges@.len(),
        Elevation::Finished { outcome } => outcome matches Ok(done) ==> done.privileges.total()
            == privileges@.len(),
    }
}

/// What holds of a run after any answers.
proof fn run_after(
    command_line: String,
    privileges: Vec<String>,
    service_name: String,
    timeout: Option<u32>,
    replies: Seq<Reply>,
)
    ensures
        ({
            let m = after(
                Elevation::start(command_line, privileges, service_name, timeout),
                replies,
            );
            m.well_formed() && raises(m, privileges)
        }),
    decreases replies.len(),
{
    let start = Elevation::start(command_line, privileges, service_name, timeout);
    if replies.len() > 0 {
        let head = replies.drop_last();
        run_after(command_line, privileges, service_name, timeout, head);
        let before = after(start, head);
        before.advance_keeps_well_formed(replies.last());
        match before {
            Elevation::Escalating { escalation, .. } => {
                escalation_step(escalation, privileges, replies.last());
            },
            _ => {},
        }
    }
}

/// Escalation comes strictly before the resume, in every run: a request
/// about a privilege is never made after, or together with, the request to
/// resume; and when the request to resume is made, the sweep is complete,
/// with an outcome counted for every privilege of the list, however the
/// single privileges ended.
pub proof fn privileges_are_raised_before_resume(
    command_line: String,
    privileges: Vec<String>,
    service_name: String,
    timeout: Option<u32>,
    replies: Seq<Reply>,
    i: int,
    j: int,
)
    requires
        0 <= i <= replies.len(),
        0 <= j <= replies.len(),
        call_at(
            Elevation::start(command_line, privileges, service_name, timeout),
            replies,
            j,
        ) matches Some(call) && call.is_resume(),
    ensures
        call_at(
            Elevation::start(command_line, privileges, service_name, timeout),
            replies,
            i,
        ) matches Some(call) && call.is_privilege_call() ==> i < j,
        after(
            Elevation::start(command_line, privileges, service_name, timeout),
            replies.take(j),
        ) matches Elevation::Resuming { tally, .. } && tally.total() == privileges@.len(),
{
    let start = Elevation::start(command_line, privileges, service_name, timeout);
    run_after(command_line, privileges, service_name, timeout, replies.take(j));
    run_after(command_line, privileges, service_name, timeout, replies.take(i));
    requests_belong_to_stages(after(start, replies.take(j)));
    requests_belong_to_stages(after(start, replies.take(i)));
    if j <= i {
        stages_are_ordered(start, replies, j, i);
    }
}

/// Only the request to resume sets the process running: no request of the
/// stages before it resumes a thread, and the process is created with the
/// flags that leave it suspended.
pub proof fn nothing_resumes_before_the_resume_stage(m: Elevation)
    requires
        m.well_formed(),
        m.stage() < 3,
    ensures
        !(m.spec_pending() matches Some(SysCall::ResumeThread { .. })),
        m.spec_pending() matches Some(SysCall::CreateProcess { flags, .. }) ==> flags
            == ELEVATED_CREATION_FLAGS,
{
}

/// Whether the `j`-th answer of a run reported the host service as running
/// in the process `pid`, in answer to a status query.
pub open spec fn located_at(m: Elevation, replies: Seq<Reply>, j: int, pid: u32) -> bool {
    &&& 0 <= j < replies.len()
    &&& call_at(m, replies, j) matches Some(SysCall::QueryServiceStatus { .. })
    &&& replies[j] == (Reply::Status { state: SERVICE_RUNNING, pid })
}

/// The process a run has settled on as the parent and not yet opened.
pub open spec fn chosen_parent(m: Elevation) -> Option<u32> {
    match m {
        Elevation::Locating { locator, .. } => match locator.spec_outcome() {
            Some(Ok(pid)) => Some(pid),
            _ => None,
        },
        Elevation::Creating { factory, .. } => match factory {
            ElevatedProcessFactory::OpeningParent { parent_pid, .. } => Some(parent_pid),
            _ => None,
        },
        _ => None,
    }
}

/// The parent a run has settled on was reported as the running service.
proof fn chosen_parent_was_reported(
    command_line: String,
    privileges: Vec<String>,
    service_name: String,
    timeout: Option<u32>,
    replies: Seq<Reply>,
)
    ensures
        ({
            let start = Elevation::start(command_line, privileges, service_name, timeout);
            chosen_parent(after(start, replies)) matches Some(pid) ==> exists|j: int|
                located_at(start, replies, j, pid)
        }),
    decreases replies.len(),
{
    let start = Elevation::start(command_line, privileges, service_name, timeout);
    if replies.len() > 0 {
        let head = replies.drop_last();
        let before = after(start, head);
        chosen_parent_was_reported(command_line, privileges, service_name, timeout, head);
        if chosen_parent(after(start, replies)) is Some {
            let pid = chosen_parent(after(start, replies))->0;
            if chosen_parent(before) == Some(pid) {
                let j = choose|j: int| located_at(start, head, j, pid);
                assert(replies.take(j) =~= head.take(j));
                assert(located_at(start, replies, j, pid));
            } else {
                let j = replies.len() - 1;
                assert(replies.take(j) =~= head);
                assert(located_at(start, replies, j, pid));
            }
        }
    }
}

/// The new process is created under the located service: the one process a
/// run opens as the parent is opened with the narrow right to create
/// processes under it, and it is the process that an earlier status query
/// reported as the running host service.
pub proof fn parent_is_the_located_service(
    command_line: String,
    privileges: Vec<String>,
    service_name: String,
    timeout: Option<u32>,
    replies: Seq<Reply>,
    k: int,
)
    requires
        0 <= k <= replies.len(),
        call_at(
            Elevation::start(command_line, privileges, service_name, timeout),
            replies,
            k,
        ) matches Some(SysCall::OpenProcess { .. }),
    ensures
        ({
            let start = Elevation::start(command_line, privileges, service_name, timeout);
            exists|j: int, pid: u32|
                {
                    &&& j < k
                    &&& #[trigger] located_at(start, replies, j, pid)
                    &&& call_at(start, replies, k) == Some(
                        SysCall::OpenProcess { access: PROCESS_CREATE_PROCESS, pid },
                    )
                }
        }),
{
    let start = Elevation::start(command_line, privileges, service_name, timeout);
    let prefix = replies.take(k);
    run_after(command_line, privileges, service_name, timeout, prefix);
    chosen_parent_was_reported(command_line, privileges, service_name, timeout, prefix);
    let pid = chosen_parent(after(start, prefix))->0;
    let j = choose|j: int| located_at(start, prefix, j, pid);
    assert(prefix.take(j) =~= replies.take(j));
    assert(located_at(start, replies, j, pid));
}

/// A blank command is refused before anything happens: the run is over from
/// the start with [`ElevationError::EmptyCommand`], and whatever answers are
/// fed to it, it makes no request at all.
pub proof fn blank_command_is_refused(
    command_line: String,
    privileges: Vec<String>,
    service_name: String,
    timeout: Option<u32>,
    replies: Seq<Reply>,
    k: int,
)
    requires
        blank(command_line@),
        0 <= k <= replies.len(),
    ensures
        Elevation::start(command_line, privileges, service_name, timeout).spec_result() == Some(
            Err::<Completion, ElevationError>(ElevationError::EmptyCommand),
        ),
        call_at(Elevation::start(command_line, privileges, service_name, timeout), replies, k)
            is None,
        calls(Elevation::start(command_line, privileges, service_name, timeout), replies)
            == Seq::<SysCall>::empty(),
{
    let start = Elevation::start(command_line, privileges, service_name, timeout);
    finished_stays_finished(start, replies.take(k));
    no_calls_when_finished(start, replies);
}

/// A finished run issues no requests.
proof fn no_calls_when_finished(m: Elevation, replies: Seq<Reply>)
    requires
        m is Finished,
    ensures
        calls(m, replies) == Seq::<SysCall>::empty(),
    decreases replies.len(),
{
    if replies.len() > 0 {
        no_calls_when_finished(m, replies.drop_last());
        finished_stays_finished(m, replies.drop_last());
    }
}

/// While the service is being located, the run is what its locator makes of
/// it: after any answers that did not lead the locator to a process
/// identifier before the last of them, the run is in the state that follows
/// from the locator's state.
proof fn run_follows_locator(
    command_line: String,
    privileges: Vec<String>,
    service_name: String,
    timeout: Option<u32>,
    replies: Seq<Reply>,
)
    requires
        !blank(command_line@),
        replies.len() > 0 ==> !(after(ServiceLocator::start(service_name), replies.drop_last())
            matches ServiceLocator::Finished { outcome: Ok(_) }),
    ensures
        after(Elevation::start(command_line, privileges, service_name, timeout), replies)
            == Elevation::spec_located(
            after(ServiceLocator::start(service_name), replies),
            command_line,
            privileges,
            timeout,
        ),
    decreases replies.len(),
{
    let start = Elevation::start(command_line, privileges, service_name, timeout);
    let locator = ServiceLocator::start(service_name);
    if replies.len() > 0 {
        let head = replies.drop_last();
        if head.len() > 0 {
            let before = after(locator, head.drop_last());
            if before matches ServiceLocator::Finished { outcome: Ok(_) } {
                stays_well_formed(locator, head.drop_last());
                before.finished_is_final(head.last());
            }
        }
        run_follows_locator(command_line, privileges, service_name, timeout, head);
        stays_well_formed(locator, head);
        if after(locator, head) is Finished {
            after(locator, head).finished_is_final(replies.last());
        }
    }
}

/// A service stuck in "start pending" ends the run with
/// [`ServiceError::ServiceStartTimeout`], and no process is created: every
/// request of the run went to the service control manager.
pub proof fn stuck_service_creates_no_process(
    command_line: String,
    privileges: Vec<String>,
    service_name: String,
    timeout: Option<u32>,
    replies: Seq<Reply>,
    k: int,
)
    requires
        !blank(command_line@),
        stuck_in_start_pending(replies),
        0 <= k <= replies.len(),
    ensures
        after(
            Elevation::start(command_line, privileges, service_name, timeout),
            replies,
        ).spec_result() == Some(
            Err::<Completion, ElevationError>(
                ElevationError::Service(ServiceError::ServiceStartTimeout),
            ),
        ),
        call_at(
            Elevation::start(command_line, privileges, service_name, timeout),
            replies,
            k,
        ) matches Some(call) ==> call.is_service_call(),
{
    let start = Elevation::start(command_line, privileges, service_name, timeout);
    let locator = ServiceLocator::start(service_name);
    stuck_service_times_out(service_name, replies);
    never_located(service_name, replies, replies.len() as int);
    assert(replies.take(replies.len() as int) =~= replies);
    if replies.len() > 0 {
        assert(replies.drop_last() =~= replies.take(replies.len() - 1));
        never_located(service_name, replies, replies.len() - 1);
    }
    run_follows_locator(command_line, privileges, service_name, timeout, replies);
    let prefix = replies.take(k);
    if k > 0 {
        assert(prefix.drop_last() =~= replies.take(k - 1));
        never_located(service_name, replies, k - 1);
    }
    run_follows_locator(command_line, privileges, service_name, timeout, prefix);
    never_located(service_name, replies, k);
    run_after(command_line, privileges, service_name, timeout, prefix);
    requests_belong_to_stages(after(start, prefix));
}

/// A locator that ends in a failure never held a process identifier on the
/// way.
proof fn never_located(service_name: String, replies: Seq<Reply>, k: int)
    requires
        0 <= k <= replies.len(),
        after(ServiceLocator::start(service_name), replies).spec_result() matches Some(Err(_)),
    ensures
        !(after(ServiceLocator::start(service_name), replies.take(k))
            matches ServiceLocator::Finished { outcome: Ok(_) }),
{
    let locator = ServiceLocator::start(service_name);
    let at_k = after(locator, replies.take(k));
    if at_k matches ServiceLocator::Finished { outcome: Ok(_) } {
        finished_prefix_decides(locator, replies, k, replies.len() as int);
        assert(replies.take(replies.len() as int) =~= replies);
    }
}

/// A run comes to an end: whatever the answers are, it has finished once it
/// has consumed 61 of them and two more for each privilege of the list.
pub proof fn run_finishes(
    command_line: String,
    privileges: Vec<String>,
    service_name: String,
    timeout: Option<u32>,
    replies: Seq<Reply>,
)
    requires
        replies.len() >= 61 + 2 * privileges@.len(),
    ensures
        after(
            Elevation::start(command_line, privileges, service_name, timeout),
            replies,
        ).spec_result() is Some,
{
    finishes_within_its_steps(
        Elevation::start(command_line, privileges, service_name, timeout),
        replies,
    );
}

/// A run gives back what it took: once it has finished, the handles its
/// requests released are exactly the handles its answers brought, each as
/// often as it was brought. This holds whichever stage failed.
pub proof fn finished_run_has_released_every_handle(
    command_line: String,
    privileges: Vec<String>,
    service_name: String,
    timeout: Option<u32>,
    replies: Seq<Reply>,
)
    requires
        after(Elevation::start(command_line, privileges, service_name, timeout), replies)
            is Finished,
    ensures
        released(Elevation::start(command_line, privileges, service_name, timeout), replies)
            == acquired(
            Elevation::start(command_line, privileges, service_name, timeout),
            replies,
        ),
{
    let start = Elevation::start(command_line, privileges, service_name, timeout);
    nothing_held_means_all_released(start, replies);
}

} // verus!
