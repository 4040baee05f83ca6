//! Plain records of what the operating system handed out.

use vstd::prelude::*;
use vstd::multiset::Multiset;
use crate::handle::{HandleGuard, HandleKind};

verus! {

/// How far a created process has come.
#[derive(Clone, Copy, Debug, PartialEq, Eq, Structural)]
pub enum ProcessState {
    /// Created, primary thread not yet running.
    Suspended,
    /// Primary thread resumed.
    Resumed,
    /// Terminated with the given exit code.
    Exited { code: u32 },
}

/// A created process: its two handles, its identifiers and its state. The
/// record owns both handles; it is moved, never copied.
#[derive(Debug, PartialEq, Eq)]
pub struct ProcessInfo {
    pub handle: HandleGuard,
    pub thread_handle: HandleGuard,
    pub process_id: u32,
    pub thread_id: u32,
    pub state: ProcessState,
}

/// A guard for a process, thread or token handle.
pub open spec fn object_guard(raw: usize) -> HandleGuard {
    HandleGuard { raw, kind: HandleKind::Object }
}

impl ProcessInfo {
    /// The record of a process that was just created suspended.
    pub open spec fn suspended(process: usize, thread: usize, pid: u32, tid: u32) -> ProcessInfo {
        ProcessInfo {
            handle: object_guard(process),
            thread_handle: object_guard(thread),
            process_id: pid,
            thread_id: tid,
            state: ProcessState::Suspended,
        }
    }

    /// Whether both handles are guarded as process and thread handles.
    pub open spec fn well_formed(&self) -> bool {
        &&& self.handle == object_guard(self.handle.raw)
        &&& self.thread_handle == object_guard(self.thread_handle.raw)
    }

    /// The two handles the record owns.
    pub open spec fn handles(&self) -> Multiset<usize> {
        Multiset::singleton(self.handle.raw).insert(self.thread_handle.raw)
    }

    /// The same process in another state.
    pub open spec fn in_state(self, state: ProcessState) -> ProcessInfo {
        ProcessInfo { state, ..self }
    }

    /// Builds the record of a process that was just created suspended.
    pub fn new_suspended(process: usize, thread: usize, pid: u32, tid: u32) -> (record: ProcessInfo)
        ensures
            record == ProcessInfo::suspended(process, thread, pid, tid),
    {
        ProcessInfo {
            handle: HandleGuard::new(process, HandleKind::Object),
            thread_handle: HandleGuard::new(thread, HandleKind::Object),
            process_id: pid,
            thread_id: tid,
            state: ProcessState::Suspended,
        }
    }

    /// Identifier of the process.
    pub fn process_id(&self) -> (pid: u32)
        ensures
            pid == self.process_id,
    {
        self.process_id
    }

    /// Identifier of the primary thread.
    pub fn thread_id(&self) -> (tid: u32)
        ensures
            tid == self.thread_id,
    {
        self.thread_id
    }
}

/// An open access token.
#[derive(Debug, PartialEq, Eq)]
pub struct TokenHandle(pub usize);

/// One privilege of the table and whether this system knows it.
#[derive(Debug, PartialEq, Eq)]
pub struct PrivilegeInfo {
    pub name: String,
    pub enabled: bool,
    pub description: Option<String>,
}

impl Clone for PrivilegeInfo {
    fn clone(&self) -> (copy: PrivilegeInfo)
        ensures
            copy == *self,
    {
        PrivilegeInfo {
            name: self.name.clone(),
            enabled: self.enabled,
            description: match &self.description {
                Some(text) => Some(text.clone()),
                None => None,
            },
        }
    }
}

} // verus!
