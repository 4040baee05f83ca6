//! Creating a process under a borrowed parent, and steering it afterwards.
//!
//! [`ElevatedProcessFactory`] creates the process suspended and never resumes
//! it; [`ProcessLifecycle`] resumes it, waits for it and reads its exit code.

use vstd::prelude::*;
use vstd::multiset::Multiset;
use crate::constants::{
    CREATE_SUSPENDED, ELEVATED_CREATION_FLAGS, PARENT_ATTRIBUTE_COUNT, PROCESS_CREATE_PROCESS,
    STILL_ACTIVE,
};
use crate::handle::{acquired_by, released_by, HandleGuard, HandleKind};
use crate::machine::{after, call_at, finishes_within_its_steps, stays_well_formed, Machine};
use crate::models::{object_guard, ProcessInfo, ProcessState};
use crate::syscall::{Reply, SysCall};

verus! {

/// Why no process was created.
#[derive(Clone, Copy, Debug, PartialEq, Eq, Structural)]
pub enum ProcessCreationError {
    /// The parent process could not be opened.
    OpenParentFailed { code: u32 },
    /// The attribute list could not be sized, allocated, initialized or
    /// filled.
    AttributeListError { code: u32 },
    /// The operating system refused to create the process.
    ProcessCreationFailed { code: u32 },
}

/// A guard for the memory of an attribute list.
pub open spec fn list_guard(raw: usize) -> HandleGuard {
    HandleGuard { raw, kind: HandleKind::AttributeList }
}

/// The handles that an outcome hands to the caller.
pub open spec fn outcome_handles(outcome: Result<ProcessInfo, ProcessCreationError>) -> Multiset<
    usize,
> {
    match outcome {
        Ok(record) => record.handles(),
        Err(_) => Multiset::empty(),
    }
}

/// Whether an outcome, if it holds a record, holds one of a suspended
/// process.
pub open spec fn outcome_suspended(outcome: Result<ProcessInfo, ProcessCreationError>) -> bool {
    match outcome {
        Ok(record) => record.well_formed() && record.state == ProcessState::Suspended,
        Err(_) => true,
    }
}

/// What the answer to the creation request means.
pub open spec fn creation_outcome(reply: Reply) -> Result<ProcessInfo, ProcessCreationError> {
    match reply {
        Reply::Created { process, thread, pid, tid } => Ok(
            ProcessInfo::suspended(process, thread, pid, tid),
        ),
        _ => Err(ProcessCreationError::ProcessCreationFailed { code: reply.error_code() }),
    }
}

/// The factory's progress. Each state but the last waits on one request.
#[derive(Debug, PartialEq, Eq)]
pub enum ElevatedProcessFactory {
    /// Waiting for the parent process to be opened.
    OpeningParent { parent_pid: u32, command_line: String },
    /// Waiting to learn how many bytes the attribute list needs.
    SizingList { parent: HandleGuard, command_line: String },
    /// Waiting for the attribute list's memory.
    Allocating { parent: HandleGuard, command_line: String, bytes: usize },
    /// Waiting for the attribute list to be initialized.
    Initializing { parent: HandleGuard, list: HandleGuard, command_line: String, bytes: usize },
    /// Waiting for the parent to be entered into the attribute list.
    SettingParent { parent: HandleGuard, list: HandleGuard, command_line: String },
    /// Waiting for the process to be created.
    Creating { parent: HandleGuard, list: HandleGuard, command_line: String },
    /// Waiting for a process to be created that keeps its natural parent.
    CreatingPlain { command_line: String },
    /// The outcome is known; the attribute list is being torn down.
    DeletingList {
        parent: HandleGuard,
        list: HandleGuard,
        outcome: Result<ProcessInfo, ProcessCreationError>,
    },
    /// The outcome is known; the attribute list's memory is being freed.
    FreeingList {
        parent: HandleGuard,
        list: HandleGuard,
        outcome: Result<ProcessInfo, ProcessCreationError>,
    },
    /// The outcome is known; the parent's handle is being released.
    ClosingParent { parent: HandleGuard, outcome: Result<ProcessInfo, ProcessCreationError> },
    /// Attribute list and parent handle are released. A created process's own
    /// handles belong to the record in the outcome.
    Finished { outcome: Result<ProcessInfo, ProcessCreationError> },
}

impl ElevatedProcessFactory {
    /// The factory before its first request.
    pub open spec fn start(parent_pid: u32, command_line: String) -> ElevatedProcessFactory {
        ElevatedProcessFactory::OpeningParent { parent_pid, command_line }
    }

    /// Begins to create a suspended process that runs `command_line` and
    /// reports the process `parent_pid` as its parent. The command line is
    /// handed to the operating system as it is, without escaping.
    pub fn create_with_parent(parent_pid: u32, command_line: String) -> (m: ElevatedProcessFactory)
        ensures
            m == ElevatedProcessFactory::start(parent_pid, command_line),
    {
        ElevatedProcessFactory::OpeningParent { parent_pid, command_line }
    }

    /// The factory of a process without a borrowed parent, before its one
    /// request.
    pub open spec fn plain_start(command_line: String) -> ElevatedProcessFactory {
        ElevatedProcessFactory::CreatingPlain { command_line }
    }

    /// Begins to create a suspended process that runs `command_line` and
    /// keeps the caller as its parent.
    pub fn create_suspended(command_line: String) -> (m: ElevatedProcessFactory)
        ensures
            m == ElevatedProcessFactory::plain_start(command_line),
    {
        ElevatedProcessFactory::CreatingPlain { command_line }
    }

    /// The result of a finished factory, `None` while a request is pending.
    pub open spec fn spec_result(self) -> Option<Result<ProcessInfo, ProcessCreationError>> {
        match self {
            ElevatedProcessFactory::Finished { outcome } => Some(outcome),
            _ => None,
        }
    }

    /// Takes the result out of a finished factory: the record of the
    /// suspended process, which now owns the process's handles, or the reason
    /// there is none. `None` while a request is pending.
    pub fn into_result(self) -> (r: Option<Result<ProcessInfo, ProcessCreationError>>)
        ensures
            r == self.spec_result(),
    {
        match self {
            ElevatedProcessFactory::Finished { outcome } => Some(outcome),
            _ => None,
        }
    }

    /// The command line the factory still has to hand over, in the states
    /// before the creation request is answered.
    pub open spec fn command_line(self) -> Option<String> {
        match self {
            ElevatedProcessFactory::OpeningParent { command_line, .. } => Some(command_line),
            ElevatedProcessFactory::SizingList { command_line, .. } => Some(command_line),
            ElevatedProcessFactory::Allocating { command_line, .. } => Some(command_line),
            ElevatedProcessFactory::Initializing { command_line, .. } => Some(command_line),
            ElevatedProcessFactory::SettingParent { command_line, .. } => Some(command_line),
            ElevatedProcessFactory::Creating { command_line, .. } => Some(command_line),
            ElevatedProcessFactory::CreatingPlain { command_line } => Some(command_line),
            _ => None,
        }
    }
}

impl Machine for ElevatedProcessFactory {
    open spec fn spec_pending(&self) -> Option<SysCall> {
        match *self {
            ElevatedProcessFactory::OpeningParent { parent_pid, .. } => Some(
                SysCall::OpenProcess { access: PROCESS_CREATE_PROCESS, pid: parent_pid },
            ),
            ElevatedProcessFactory::SizingList { .. } => Some(
                SysCall::AttributeListSize { attributes: PARENT_ATTRIBUTE_COUNT },
            ),
            ElevatedProcessFactory::Allocating { bytes, .. } => Some(
                SysCall::AllocateAttributeList { bytes },
            ),
            ElevatedProcessFactory::Initializing { list, bytes, .. } => Some(
                SysCall::InitializeAttributeList {
                    list: list.raw,
                    attributes: PARENT_ATTRIBUTE_COUNT,
                    bytes,
                },
            ),
            ElevatedProcessFactory::SettingParent { parent, list, .. } => Some(
                SysCall::SetParentProcess { list: list.raw, parent: parent.raw },
            ),
            ElevatedProcessFactory::Creating { list, command_line, .. } => Some(
                SysCall::CreateProcess {
                    command_line,
                    flags: ELEVATED_CREATION_FLAGS,
                    attribute_list: list.raw,
                },
            ),
            ElevatedProcessFactory::CreatingPlain { command_line } => Some(
                SysCall::CreateProcess { command_line, flags: CREATE_SUSPENDED, attribute_list: 0 },
            ),
            ElevatedProcessFactory::DeletingList { list, .. } => Some(
                SysCall::DeleteAttributeList { list: list.raw },
            ),
            ElevatedProcessFactory::FreeingList { list, .. } => Some(list.closing_call()),
            ElevatedProcessFactory::ClosingParent { parent, .. } => Some(parent.closing_call()),
            ElevatedProcessFactory::Finished { .. } => None,
        }
    }

    open spec fn spec_advance(self, reply: Reply) -> ElevatedProcessFactory {
        let failed = Err::<ProcessInfo, ProcessCreationError>(
            ProcessCreationError::AttributeListError { code: reply.error_code() },
        );
        match self {
            ElevatedProcessFactory::OpeningParent { parent_pid, command_line } => match reply.handle() {
                Some(raw) => ElevatedProcessFactory::SizingList {
                    parent: object_guard(raw),
                    command_line,
                },
                None => ElevatedProcessFactory::Finished {
                    outcome: Err(
                        ProcessCreationError::OpenParentFailed { code: reply.error_code() },
                    ),
                },
            },
            ElevatedProcessFactory::SizingList { parent, command_line } => match reply {
                Reply::Size { bytes } => if bytes > 0 {
                    ElevatedProcessFactory::Allocating { parent, command_line, bytes }
                } else {
                    ElevatedProcessFactory::ClosingParent { parent, outcome: failed }
                },
                _ => ElevatedProcessFactory::ClosingParent { parent, outcome: failed },
            },
            ElevatedProcessFactory::Allocating { parent, command_line, bytes } => match reply.handle() {
                Some(raw) => ElevatedProcessFactory::Initializing {
                    parent,
                    list: list_guard(raw),
                    command_line,
                    bytes,
                },
                None => ElevatedProcessFactory::ClosingParent { parent, outcome: failed },
            },
            ElevatedProcessFactory::Initializing { parent, list, command_line, bytes } => if reply.is_done() {
                ElevatedProcessFactory::SettingParent { parent, list, command_line }
            } else {
                ElevatedProcessFactory::FreeingList { parent, list, outcome: failed }
            },
            ElevatedProcessFactory::SettingParent { parent, list, command_line } => if reply.is_done() {
                ElevatedProcessFactory::Creating { parent, list, command_line }
            } else {
                ElevatedProcessFactory::DeletingList { parent, list, outcome: failed }
            },
            ElevatedProcessFactory::Creating { parent, list, command_line } => {
                ElevatedProcessFactory::DeletingList {
                    parent,
                    list,
                    outcome: creation_outcome(reply),
                }
            },
            ElevatedProcessFactory::CreatingPlain { command_line } => {
                ElevatedProcessFactory::Finished { outcome: creation_outcome(reply) }
            },
            ElevatedProcessFactory::DeletingList { parent, list, outcome } => {
                ElevatedProcessFactory::FreeingList { parent, list, outcome }
            },
            ElevatedProcessFactory::FreeingList { parent, list, outcome } => {
                ElevatedProcessFactory::ClosingParent { parent, outcome }
            },
            ElevatedProcessFactory::ClosingParent { parent, outcome } => {
                ElevatedProcessFactory::Finished { outcome }
            },
            ElevatedProcessFactory::Finished { outcome } => ElevatedProcessFactory::Finished {
                outcome,
            },
        }
    }

    /// Held handles are guarded by their kind, and a record in the outcome
    /// is that of a suspended process.
    open spec fn well_formed(&self) -> bool {
        match *self {
            ElevatedProcessFactory::OpeningParent { .. } => true,
            ElevatedProcessFactory::SizingList { parent, .. } => parent == object_guard(parent.raw),
            ElevatedProcessFactory::Allocating { parent, .. } => parent == object_guard(parent.raw),
            ElevatedProcessFactory::Initializing { parent, list, .. } => parent == object_guard(
                parent.raw,
            ) && list == list_guard(list.raw),
            ElevatedProcessFactory::SettingParent { parent, list, .. } => parent == object_guard(
                parent.raw,
            ) && list == list_guard(list.raw),
            ElevatedProcessFactory::Creating { parent, list, .. } => parent == object_guard(
                parent.raw,
            ) && list == list_guard(list.raw),
            ElevatedProcessFactory::CreatingPlain { .. } => true,
            ElevatedProcessFactory::DeletingList { parent, list, outcome } => parent
                == object_guard(parent.raw) && list == list_guard(list.raw) && outcome_suspended(
                outcome,
            ),
            ElevatedProcessFactory::FreeingList { parent, list, outcome } => parent
                == object_guard(parent.raw) && list == list_guard(list.raw) && outcome_suspended(
                outcome,
            ),
            ElevatedProcessFactory::ClosingParent { parent, outcome } => parent == object_guard(
                parent.raw,
            ) && outcome_suspended(outcome),
            ElevatedProcessFactory::Finished { outcome } => outcome_suspended(outcome),
        }
    }

    open spec fn held(&self) -> Multiset<usize> {
        match *self {
            ElevatedProcessFactory::OpeningParent { .. } => Multiset::empty(),
            ElevatedProcessFactory::SizingList { parent, .. } => Multiset::singleton(parent.raw),
            ElevatedProcessFactory::Allocating { parent, .. } => Multiset::singleton(parent.raw),
            ElevatedProcessFactory::Initializing { parent, list, .. } => Multiset::singleton(
                parent.raw,
            ).insert(list.raw),
            ElevatedProcessFactory::SettingParent { parent, list, .. } => Multiset::singleton(
                parent.raw,
            ).insert(list.raw),
            ElevatedProcessFactory::Creating { parent, list, .. } => Multiset::singleton(
                parent.raw,
            ).insert(list.raw),
            ElevatedProcessFactory::CreatingPlain { .. } => Multiset::empty(),
            ElevatedProcessFactory::DeletingList { parent, list, outcome } => Multiset::singleton(
                parent.raw,
            ).insert(list.raw).add(outcome_handles(outcome)),
            ElevatedProcessFactory::FreeingList { parent, list, outcome } => Multiset::singleton(
                parent.raw,
            ).insert(list.raw).add(outcome_handles(outcome)),
            ElevatedProcessFactory::ClosingParent { parent, outcome } => Multiset::singleton(
                parent.raw,
            ).add(outcome_handles(outcome)),
            ElevatedProcessFactory::Finished { outcome } => outcome_handles(outcome),
        }
    }

    open spec fn steps_left(&self) -> nat {
        match *self {
            ElevatedProcessFactory::OpeningParent { .. } => 9,
            ElevatedProcessFactory::SizingList { .. } => 8,
            ElevatedProcessFactory::Allocating { .. } => 7,
            ElevatedProcessFactory::Initializing { .. } => 6,
            ElevatedProcessFactory::SettingParent { .. } => 5,
            ElevatedProcessFactory::Creating { .. } => 4,
            ElevatedProcessFactory::CreatingPlain { .. } => 1,
            ElevatedProcessFactory::DeletingList { .. } => 3,
            ElevatedProcessFactory::FreeingList { .. } => 2,
            ElevatedProcessFactory::ClosingParent { .. } => 1,
            ElevatedProcessFactory::Finished { .. } => 0,
        }
    }

    proof fn finished_is_final(self, reply: Reply) {
    }

    proof fn advance_uses_a_step(self, reply: Reply) {
    }

    proof fn advance_keeps_well_formed(self, reply: Reply) {
    }

    proof fn advance_keeps_ledger(self, reply: Reply) {
        assert(self.spec_advance(reply).held().add(released_by(self.spec_pending()))
            =~= self.held().add(acquired_by(self.spec_pending(), reply)));
    }

    fn pending(&self) -> (call: Option<SysCall>) {
        match self {
            ElevatedProcessFactory::OpeningParent { parent_pid, .. } => Some(
                SysCall::OpenProcess { access: PROCESS_CREATE_PROCESS, pid: *parent_pid },
            ),
            ElevatedProcessFactory::SizingList { .. } => Some(
                SysCall::AttributeListSize { attributes: PARENT_ATTRIBUTE_COUNT },
            ),
            ElevatedProcessFactory::Allocating { bytes, .. } => Some(
                SysCall::AllocateAttributeList { bytes: *bytes },
            ),
            ElevatedProcessFactory::Initializing { list, bytes, .. } => Some(
                SysCall::InitializeAttributeList {
                    list: list.raw,
                    attributes: PARENT_ATTRIBUTE_COUNT,
                    bytes: *bytes,
                },
            ),
            ElevatedProcessFactory::SettingParent { parent, list, .. } => Some(
                SysCall::SetParentProcess { list: list.raw, parent: parent.raw },
            ),
            ElevatedProcessFactory::Creating { list, command_line, .. } => Some(
                SysCall::CreateProcess {
                    command_line: command_line.clone(),
                    flags: ELEVATED_CREATION_FLAGS,
                    attribute_list: list.raw,
                },
            ),
            ElevatedProcessFactory::CreatingPlain { command_line } => Some(
                SysCall::CreateProcess {
                    command_line: command_line.clone(),
                    flags: CREATE_SUSPENDED,
                    attribute_list: 0,
                },
            ),
            ElevatedProcessFactory::DeletingList { list, .. } => Some(
                SysCall::DeleteAttributeList { list: list.raw },
            ),
            ElevatedProcessFactory::FreeingList { list, .. } => Some(list.closing_call()),
            ElevatedProcessFactory::ClosingParent { parent, .. } => Some(parent.closing_call()),
            ElevatedProcessFactory::Finished { .. } => None,
        }
    }

    fn advance(self, reply: Reply) -> (next: ElevatedProcessFactory) {
        let code = reply.error_code();
        match self {
            ElevatedProcessFactory::OpeningParent { parent_pid, command_line } => match reply.handle() {
                Some(raw) => ElevatedProcessFactory::SizingList {
                    parent: HandleGuard::new(raw, HandleKind::Object),
                    command_line,
                },
                None => ElevatedProcessFactory::Finished {
                    outcome: Err(ProcessCreationError::OpenParentFailed { code }),
                },
            },
            ElevatedProcessFactory::SizingList { parent, command_line } => match reply {
                Reply::Size { bytes } => if bytes > 0 {
                    ElevatedProcessFactory::Allocating { parent, command_line, bytes }
                } else {
                    ElevatedProcessFactory::ClosingParent {
                        parent,
                        outcome: Err(ProcessCreationError::AttributeListError { code }),
                    }
                },
                _ => ElevatedProcessFactory::ClosingParent {
                    parent,
                    outcome: Err(ProcessCreationError::AttributeListError { code }),
                },
            },
            ElevatedProcessFactory::Allocating { parent, command_line, bytes } => match reply.handle() {
                Some(raw) => ElevatedProcessFactory::Initializing {
                    parent,
                    list: HandleGuard::new(raw, HandleKind::AttributeList),
                    command_line,
                    bytes,
                },
                None => ElevatedProcessFactory::ClosingParent {
                    parent,
                    outcome: Err(ProcessCreationError::AttributeListError { code }),
                },
            },
            ElevatedProcessFactory::Initializing { parent, list, command_line, bytes } => {
                if reply.is_done() {
                    ElevatedProcessFactory::SettingParent { parent, list, command_line }
                } else {
                    ElevatedProcessFactory::FreeingList {
                        parent,
                        list,
                        outcome: Err(ProcessCreationError::AttributeListError { code }),
                    }
                }
            },
            ElevatedProcessFactory::SettingParent { parent, list, command_line } => {
                if reply.is_done() {
                    ElevatedProcessFactory::Creating { parent, list, command_line }
                } else {
                    ElevatedProcessFactory::DeletingList {
                        parent,
                        list,
                        outcome: Err(ProcessCreationError::AttributeListError { code }),
                    }
                }
            },
            ElevatedProcessFactory::Creating { parent, list, command_line } => {
                let outcome = match reply {
                    Reply::Created { process, thread, pid, tid } => Ok(
                        ProcessInfo::new_suspended(process, thread, pid, tid),
                    ),
                    _ => Err(ProcessCreationError::ProcessCreationFailed { code }),
                };
                ElevatedProcessFactory::DeletingList { parent, list, outcome }
            },
            ElevatedProcessFactory::CreatingPlain { command_line } => {
                let outcome = match reply {
                    Reply::Created { process, thread, pid, tid } => Ok(
                        ProcessInfo::new_suspended(process, thread, pid, tid),
                    ),
                    _ => Err(ProcessCreationError::ProcessCreationFailed { code }),
                };
                ElevatedProcessFactory::Finished { outcome }
            },
            ElevatedProcessFactory::DeletingList { parent, list, outcome } => {
                ElevatedProcessFactory::FreeingList { parent, list, outcome }
            },
            ElevatedProcessFactory::FreeingList { parent, list, outcome } => {
                ElevatedProcessFactory::ClosingParent { parent, outcome }
            },
            ElevatedProcessFactory::ClosingParent { parent, outcome } => {
                ElevatedProcessFactory::Finished { outcome }
            },
            ElevatedProcessFactory::Finished { outcome } => ElevatedProcessFactory::Finished {
                outcome,
            },
        }
    }
}

/// A factory never asks for a thread to be resumed, in any state.
pub proof fn factory_never_resumes(m: ElevatedProcessFactory)
    ensures
        !(m.spec_pending() matches Some(SysCall::ResumeThread { .. })),
{
}

/// The command line travels unchanged through the states before creation.
proof fn command_line_is_kept(parent_pid: u32, command_line: String, replies: Seq<Reply>)
    ensures
        ({
            let m = after(ElevatedProcessFactory::start(parent_pid, command_line), replies);
            m.command_line() is Some ==> m.command_line() == Some(command_line)
        }),
    decreases replies.len(),
{
    if replies.len() > 0 {
        command_line_is_kept(parent_pid, command_line, replies.drop_last());
    }
}

/// Whatever the answers, the factory leaves the new process suspended: none
/// of its requests resumes a thread, its creation request carries the given
/// command line unchanged with the flags that start the process suspended,
/// and a record it returns is in the suspended state.
pub proof fn created_process_stays_suspended(
    parent_pid: u32,
    command_line: String,
    replies: Seq<Reply>,
    k: int,
)
    requires
        0 <= k <= replies.len(),
    ensures
        ({
            let start = ElevatedProcessFactory::start(parent_pid, command_line);
            &&& !(call_at(start, replies, k) matches Some(SysCall::ResumeThread { .. }))
            &&& call_at(start, replies, k) matches Some(
                SysCall::CreateProcess { command_line: given, flags, .. },
            ) ==> given == command_line && flags == ELEVATED_CREATION_FLAGS
            &&& after(start, replies).spec_result() matches Some(Ok(record)) ==> record.state
                == ProcessState::Suspended
        }),
{
    let start = ElevatedProcessFactory::start(parent_pid, command_line);
    command_line_is_kept(parent_pid, command_line, replies.take(k));
    stays_well_formed(start, replies);
}

/// The parent named in the attribute list is the process that was asked for:
/// the first request opens `parent_pid`, and a later request that names a
/// parent names the handle this opening returned.
pub proof fn parent_is_the_opened_process(
    parent_pid: u32,
    command_line: String,
    replies: Seq<Reply>,
    k: int,
)
    requires
        0 <= k <= replies.len(),
    ensures
        ({
            let start = ElevatedProcessFactory::start(parent_pid, command_line);
            &&& call_at(start, replies, 0) == Some(
                SysCall::OpenProcess { access: PROCESS_CREATE_PROCESS, pid: parent_pid },
            )
            &&& call_at(start, replies, k) matches Some(SysCall::SetParentProcess { parent, .. })
                ==> replies.len() > 0 && replies[0].handle() == Some(parent)
        }),
{
    let start = ElevatedProcessFactory::start(parent_pid, command_line);
    assert(replies.take(0) =~= Seq::empty());
    parent_handle_is_kept(parent_pid, command_line, replies.take(k));
    if k > 0 {
        assert(replies.take(k)[0] == replies[0]);
    }
}

/// The parent handle a factory holds before creation is the one its first
/// answer brought.
proof fn parent_handle_is_kept(parent_pid: u32, command_line: String, replies: Seq<Reply>)
    ensures
        ({
            let m = after(ElevatedProcessFactory::start(parent_pid, command_line), replies);
            match m {
                ElevatedProcessFactory::OpeningParent { .. } => replies.len() == 0,
                ElevatedProcessFactory::SizingList { parent, .. } => replies.len() > 0
                    && replies[0].handle() == Some(parent.raw),
                ElevatedProcessFactory::Allocating { parent, .. } => replies.len() > 0
                    && replies[0].handle() == Some(parent.raw),
                ElevatedProcessFactory::Initializing { parent, .. } => replies.len() > 0
                    && replies[0].handle() == Some(parent.raw),
                ElevatedProcessFactory::SettingParent { parent, .. } => replies.len() > 0
                    && replies[0].handle() == Some(parent.raw),
                ElevatedProcessFactory::Creating { parent, .. } => replies.len() > 0
                    && replies[0].handle() == Some(parent.raw),
                _ => true,
            }
        }),
    decreases replies.len(),
{
    if replies.len() > 0 {
        let head = replies.drop_last();
        parent_handle_is_kept(parent_pid, command_line, head);
        if head.len() > 0 {
            assert(head[0] == replies[0]);
        }
    }
}

/// A factory has finished once it has consumed nine answers, and then owns
/// nothing but the handles of the record it returns: the attribute list and
/// the parent's handle are released whether creation succeeded or failed.
pub proof fn factory_finishes(parent_pid: u32, command_line: String, replies: Seq<Reply>)
    requires
        replies.len() >= 9,
    ensures
        ({
            let m = after(ElevatedProcessFactory::start(parent_pid, command_line), replies);
            &&& m.spec_result() matches Some(outcome)
            &&& m.held() == outcome_handles(outcome)
        }),
{
    finishes_within_its_steps(ElevatedProcessFactory::start(parent_pid, command_line), replies);
}

/// Why a lifecycle operation did not do what was asked.
#[derive(Clone, Copy, Debug, PartialEq, Eq, Structural)]
pub enum LifecycleError {
    /// The process is not suspended, so there is nothing to resume. No
    /// request is made.
    NotSuspended,
    /// The operating system did not resume the thread.
    ResumeFailed { code: u32 },
    /// The wait failed, or the exit code could not be read after it.
    WaitFailed { code: u32 },
    /// The probe could not read the process's status.
    StatusUnavailable { code: u32 },
}

/// What a lifecycle operation found or did.
#[derive(Clone, Copy, Debug, PartialEq, Eq, Structural)]
pub enum LifecycleOutcome {
    /// The primary thread runs.
    Resumed,
    /// The process terminated with this exit code.
    Exited { code: u32 },
    /// The wait's bound elapsed while the process was still running. This
    /// says nothing against the process.
    WaitTimeout,
    /// The probe's finding at the moment it was made.
    Probed { running: bool },
}

/// One operation on a created process: resume, wait for exit, or probe. The
/// machine holds the record while it works and gives it back at the end.
#[derive(Debug, PartialEq, Eq)]
pub enum ProcessLifecycle {
    /// Waiting for the primary thread to be resumed.
    Resuming { record: ProcessInfo },
    /// Waiting for the process to terminate, or for the bound to elapse.
    Waiting { record: ProcessInfo, timeout: Option<u32> },
    /// The process has terminated; waiting for its exit code.
    ReadingExitCode { record: ProcessInfo },
    /// Waiting for the status probe.
    Probing { record: ProcessInfo },
    /// The operation is over.
    Finished { record: ProcessInfo, outcome: Result<LifecycleOutcome, LifecycleError> },
}

impl ProcessLifecycle {
    /// The state in which resuming `record` begins: a request to resume for
    /// a suspended process, an immediate refusal for any other.
    pub open spec fn resume_start(record: ProcessInfo) -> ProcessLifecycle {
        if record.state == ProcessState::Suspended {
            ProcessLifecycle::Resuming { record }
        } else {
            ProcessLifecycle::Finished { record, outcome: Err(LifecycleError::NotSuspended) }
        }
    }

    /// Begins to resume the primary thread of a suspended process. A process
    /// that is not suspended is refused without any request, so that no
    /// process is resumed twice.
    pub fn resume(record: ProcessInfo) -> (m: ProcessLifecycle)
        ensures
            m == ProcessLifecycle::resume_start(record),
    {
        match record.state {
            ProcessState::Suspended => ProcessLifecycle::Resuming { record },
            _ => ProcessLifecycle::Finished { record, outcome: Err(LifecycleError::NotSuspended) },
        }
    }

    /// The state in which waiting for `record` begins.
    pub open spec fn wait_start(record: ProcessInfo, timeout: Option<u32>) -> ProcessLifecycle {
        ProcessLifecycle::Waiting { record, timeout }
    }

    /// Begins to wait until the process terminates, without bound for `None`
    /// and for at most `timeout` milliseconds otherwise, and then to read its
    /// exit code.
    pub fn wait_for_exit(record: ProcessInfo, timeout: Option<u32>) -> (m: ProcessLifecycle)
        ensures
            m == ProcessLifecycle::wait_start(record, timeout),
    {
        ProcessLifecycle::Waiting { record, timeout }
    }

    /// The state in which probing `record` begins.
    pub open spec fn probe_start(record: ProcessInfo) -> ProcessLifecycle {
        ProcessLifecycle::Probing { record }
    }

    /// Begins to probe, without blocking, whether the process still runs.
    /// The finding is a diagnosis: the process may terminate right after it.
    pub fn is_running(record: ProcessInfo) -> (m: ProcessLifecycle)
        ensures
            m == ProcessLifecycle::probe_start(record),
    {
        ProcessLifecycle::Probing { record }
    }

    /// The record the machine holds.
    pub open spec fn record(self) -> ProcessInfo {
        match self {
            ProcessLifecycle::Resuming { record } => record,
            ProcessLifecycle::Waiting { record, .. } => record,
            ProcessLifecycle::ReadingExitCode { record } => record,
            ProcessLifecycle::Probing { record } => record,
            ProcessLifecycle::Finished { record, .. } => record,
        }
    }

    /// The result of a finished operation, `None` while a request is pending.
    pub open spec fn spec_result(&self) -> Option<Result<LifecycleOutcome, LifecycleError>> {
        match *self {
            ProcessLifecycle::Finished { outcome, .. } => Some(outcome),
            _ => None,
        }
    }

    /// The result of a finished operation, `None` while a request is pending.
    #[verifier::when_used_as_spec(spec_result)]
    pub fn result(&self) -> (r: Option<Result<LifecycleOutcome, LifecycleError>>)
        ensures
            r == self.spec_result(),
    {
        match self {
            ProcessLifecycle::Finished { outcome, .. } => Some(*outcome),
            _ => None,
        }
    }

    /// Gives the record back, in the state the operation left it in.
    pub fn into_record(self) -> (r: ProcessInfo)
        ensures
            r == self.record(),
    {
        match self {
            ProcessLifecycle::Resuming { record } => record,
            ProcessLifecycle::Waiting { record, .. } => record,
            ProcessLifecycle::ReadingExitCode { record } => record,
            ProcessLifecycle::Probing { record } => record,
            ProcessLifecycle::Finished { record, .. } => record,
        }
    }
}

impl Machine for ProcessLifecycle {
    open spec fn spec_pending(&self) -> Option<SysCall> {
        match *self {
            ProcessLifecycle::Resuming { record } => Some(
                SysCall::ResumeThread { thread: record.thread_handle.raw },
            ),
            ProcessLifecycle::Waiting { record, timeout } => Some(
                SysCall::WaitForExit { process: record.handle.raw, timeout },
            ),
            ProcessLifecycle::ReadingExitCode { record } => Some(
                SysCall::GetExitCode { process: record.handle.raw },
            ),
            ProcessLifecycle::Probing { record } => Some(
                SysCall::GetExitCode { process: record.handle.raw },
            ),
            ProcessLifecycle::Finished { .. } => None,
        }
    }

    open spec fn spec_advance(self, reply: Reply) -> ProcessLifecycle {
        match self {
            ProcessLifecycle::Resuming { record } => if reply.is_done() {
                ProcessLifecycle::Finished {
                    record: record.in_state(ProcessState::Resumed),
                    outcome: Ok(LifecycleOutcome::Resumed),
                }
            } else {
                ProcessLifecycle::Finished {
                    record,
                    outcome: Err(LifecycleError::ResumeFailed { code: reply.error_code() }),
                }
            },
            ProcessLifecycle::Waiting { record, timeout } => match reply {
                Reply::Signaled => ProcessLifecycle::ReadingExitCode { record },
                Reply::TimedOut => ProcessLifecycle::Finished {
                    record,
                    outcome: Ok(LifecycleOutcome::WaitTimeout),
                },
                _ => ProcessLifecycle::Finished {
                    record,
                    outcome: Err(LifecycleError::WaitFailed { code: reply.error_code() }),
                },
            },
            ProcessLifecycle::ReadingExitCode { record } => match reply {
                Reply::ExitCode { code } => ProcessLifecycle::Finished {
                    record: record.in_state(ProcessState::Exited { code }),
                    outcome: Ok(LifecycleOutcome::Exited { code }),
                },
                _ => ProcessLifecycle::Finished {
                    record,
                    outcome: Err(LifecycleError::WaitFailed { code: reply.error_code() }),
                },
            },
            ProcessLifecycle::Probing { record } => match reply {
                Reply::ExitCode { code } => ProcessLifecycle::Finished {
                    record,
                    outcome: Ok(LifecycleOutcome::Probed { running: code == STILL_ACTIVE }),
                },
                _ => ProcessLifecycle::Finished {
                    record,
                    outcome: Err(LifecycleError::StatusUnavailable { code: reply.error_code() }),
                },
            },
            ProcessLifecycle::Finished { record, outcome } => ProcessLifecycle::Finished {
                record,
                outcome,
            },
        }
    }

    /// The record's handles are guarded as process and thread handles.
    open spec fn well_formed(&self) -> bool {
        self.record().well_formed()
    }

    open spec fn steps_left(&self) -> nat {
        match *self {
            ProcessLifecycle::Waiting { .. } => 2,
            ProcessLifecycle::Finished { .. } => 0,
            _ => 1,
        }
    }

    open spec fn held(&self) -> Multiset<usize> {
        self.record().handles()
    }

    proof fn finished_is_final(self, reply: Reply) {
    }

    proof fn advance_uses_a_step(self, reply: Reply) {
    }

    proof fn advance_keeps_well_formed(self, reply: Reply) {
    }

    proof fn advance_keeps_ledger(self, reply: Reply) {
        assert(self.spec_advance(reply).held().add(released_by(self.spec_pending()))
            =~= self.held().add(acquired_by(self.spec_pending(), reply)));
    }

    fn pending(&self) -> (call: Option<SysCall>) {
        match self {
            ProcessLifecycle::Resuming { record } => Some(
                SysCall::ResumeThread { thread: record.thread_handle.raw },
            ),
            ProcessLifecycle::Waiting { record, timeout } => Some(
                SysCall::WaitForExit { process: record.handle.raw, timeout: *timeout },
            ),
            ProcessLifecycle::ReadingExitCode { record } => Some(
                SysCall::GetExitCode { process: record.handle.raw },
            ),
            ProcessLifecycle::Probing { record } => Some(
                SysCall::GetExitCode { process: record.handle.raw },
            ),
            ProcessLifecycle::Finished { .. } => None,
        }
    }

    fn advance(self, reply: Reply) -> (next: ProcessLifecycle) {
        let code = reply.error_code();
        match self {
            ProcessLifecycle::Resuming { record } => {
                if reply.is_done() {
                    let ProcessInfo { handle, thread_handle, process_id, thread_id, state } =
                        record;
                    ProcessLifecycle::Finished {
                        record: ProcessInfo {
                            handle,
                            thread_handle,
                            process_id,
                            thread_id,
                            state: ProcessState::Resumed,
                        },
                        outcome: Ok(LifecycleOutcome::Resumed),
                    }
                } else {
                    ProcessLifecycle::Finished {
                        record,
                        outcome: Err(LifecycleError::ResumeFailed { code }),
                    }
                }
            },
            ProcessLifecycle::Waiting { record, timeout } => match reply {
                Reply::Signaled => ProcessLifecycle::ReadingExitCode { record },
                Reply::TimedOut => ProcessLifecycle::Finished {
                    record,
                    outcome: Ok(LifecycleOutcome::WaitTimeout),
                },
                _ => ProcessLifecycle::Finished {
                    record,
                    outcome: Err(LifecycleError::WaitFailed { code }),
                },
            },
            ProcessLifecycle::ReadingExitCode { record } => match reply {
                Reply::ExitCode { code: exit } => {
                    let ProcessInfo { handle, thread_handle, process_id, thread_id, state } =
                        record;
                    ProcessLifecycle::Finished {
                        record: ProcessInfo {
                            handle,
                            thread_handle,
                            process_id,
                            thread_id,
                            state: ProcessState::Exited { code: exit },
                        },
                        outcome: Ok(LifecycleOutcome::Exited { code: exit }),
                    }
                },
                _ => ProcessLifecycle::Finished {
                    record,
                    outcome: Err(LifecycleError::WaitFailed { code }),
                },
            },
            ProcessLifecycle::Probing { record } => match reply {
                Reply::ExitCode { code: exit } => ProcessLifecycle::Finished {
                    record,
                    outcome: Ok(LifecycleOutcome::Probed { running: exit == STILL_ACTIVE }),
                },
                _ => ProcessLifecycle::Finished {
                    record,
                    outcome: Err(LifecycleError::StatusUnavailable { code }),
                },
            },
            ProcessLifecycle::Finished { record, outcome } => ProcessLifecycle::Finished {
                record,
                outcome,
            },
        }
    }
}

/// The state of a resume operation after any answers: still waiting on its
/// one request with the record untouched, or finished.
proof fn resume_states(record: ProcessInfo, replies: Seq<Reply>)
    ensures
        ({
            let m = after(ProcessLifecycle::resume_start(record), replies);
            &&& m is Resuming ==> replies.len() == 0 && record.state == ProcessState::Suspended
            &&& m is Resuming || m is Finished
            &&& m.record() == record || (record.state == ProcessState::Suspended
                && replies.len() > 0 && replies[0] == Reply::Done && m.record()
                == record.in_state(ProcessState::Resumed))
            &&& m.spec_result() == Some(
                Ok::<LifecycleOutcome, LifecycleError>(LifecycleOutcome::Resumed),
            ) ==> m.record() != record
        }),
    decreases replies.len(),
{
    if replies.len() > 0 {
        let head = replies.drop_last();
        resume_states(record, head);
        if head.len() > 0 {
            assert(head[0] == replies[0]);
        }
    }
}

/// A process goes from suspended to resumed at most once: a resume operation
/// makes at most one request, as its first step and only for a suspended
/// process; the record it gives back is either untouched or the suspended
/// record turned resumed by a request that succeeded; and it reports success
/// only in the second case.
pub proof fn resumed_at_most_once(record: ProcessInfo, replies: Seq<Reply>, k: int)
    requires
        0 <= k <= replies.len(),
    ensures
        ({
            let start = ProcessLifecycle::resume_start(record);
            let end = after(start, replies);
            &&& call_at(start, replies, k) is Some ==> k == 0 && record.state
                == ProcessState::Suspended
            &&& end.record() == record || (record.state == ProcessState::Suspended
                && replies.len() > 0 && replies[0] == Reply::Done && end.record()
                == record.in_state(ProcessState::Resumed))
            &&& end.spec_result() == Some(
                Ok::<LifecycleOutcome, LifecycleError>(LifecycleOutcome::Resumed),
            ) ==> end.record() != record
        }),
{
    resume_states(record, replies.take(k));
    resume_states(record, replies);
}

/// A wait whose bound elapses ends with [`LifecycleOutcome::WaitTimeout`],
/// which is no error, and leaves the record as it was.
pub proof fn elapsed_wait_is_no_error(record: ProcessInfo, timeout: Option<u32>)
    ensures
        ProcessLifecycle::wait_start(record, timeout).spec_advance(Reply::TimedOut)
            == (ProcessLifecycle::Finished {
            record,
            outcome: Ok(LifecycleOutcome::WaitTimeout),
        }),
{
}

/// The exit code a terminated process reports is the one the wait returns and
/// the one the record keeps, unchanged.
pub proof fn exit_code_is_propagated(record: ProcessInfo, timeout: Option<u32>, code: u32)
    ensures
        ProcessLifecycle::wait_start(record, timeout).spec_advance(Reply::Signaled).spec_advance(
            Reply::ExitCode { code },
        ) == (ProcessLifecycle::Finished {
            record: record.in_state(ProcessState::Exited { code }),
            outcome: Ok(LifecycleOutcome::Exited { code }),
        }),
{
}

} // verus!
