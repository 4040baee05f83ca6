//! Ownership of operating-system resources.
//!
//! A [`HandleGuard`] is the only holder of one open handle. It cannot be
//! copied; it is moved from one state of a machine to the next and leaves the
//! machine in exactly one closing request.

use vstd::prelude::*;
use vstd::multiset::Multiset;
use crate::syscall::{Reply, SysCall};

verus! {

/// What a handle stands for, which decides how it is released.
#[derive(Clone, Copy, Debug, PartialEq, Eq, Structural)]
pub enum HandleKind {
    /// A service or service-manager handle.
    Service,
    /// A process, thread or token handle.
    Object,
    /// The memory of an attribute list.
    AttributeList,
}

/// Exclusive owner of one native handle.
#[derive(Debug, PartialEq, Eq)]
pub struct HandleGuard {
    pub raw: usize,
    pub kind: HandleKind,
}

impl HandleGuard {
    /// Takes ownership of `raw`.
    pub fn new(raw: usize, kind: HandleKind) -> (guard: HandleGuard)
        ensures
            guard == (HandleGuard { raw, kind }),
    {
        HandleGuard { raw, kind }
    }

    /// Whether the guard holds no handle.
    pub open spec fn spec_is_null(&self) -> bool {
        self.raw == 0
    }

    /// Whether the guard holds no handle.
    #[verifier::when_used_as_spec(spec_is_null)]
    pub fn is_null(&self) -> (b: bool)
        ensures
            b == self.spec_is_null(),
    {
        self.raw == 0
    }

    /// The request that releases the handle, by its kind.
    pub open spec fn spec_closing_call(&self) -> SysCall {
        match self.kind {
            HandleKind::Service => SysCall::CloseServiceHandle { handle: self.raw },
            HandleKind::Object => SysCall::CloseHandle { handle: self.raw },
            HandleKind::AttributeList => SysCall::FreeAttributeList { list: self.raw },
        }
    }

    /// The request that releases the handle, by its kind.
    #[verifier::when_used_as_spec(spec_closing_call)]
    pub fn closing_call(&self) -> (call: SysCall)
        ensures
            call == self.spec_closing_call(),
    {
        match self.kind {
            HandleKind::Service => SysCall::CloseServiceHandle { handle: self.raw },
            HandleKind::Object => SysCall::CloseHandle { handle: self.raw },
            HandleKind::AttributeList => SysCall::FreeAttributeList { list: self.raw },
        }
    }

    /// Gives the handle up: the request that releases it, or `None` for a
    /// null handle, which needs no release. The guard is consumed, so a
    /// handle is given up at most once.
    pub fn release(self) -> (call: Option<SysCall>)
        ensures
            call == (if self.is_null() {
                None
            } else {
                Some(self.closing_call())
            }),
    {
        if self.is_null() {
            None
        } else {
            Some(self.closing_call())
        }
    }
}

impl SysCall {
    /// The handle that this request releases, if it is a releasing request.
    pub open spec fn released(self) -> Option<usize> {
        match self {
            SysCall::CloseServiceHandle { handle } => Some(handle),
            SysCall::CloseHandle { handle } => Some(handle),
            SysCall::FreeAttributeList { list } => Some(list),
            _ => None,
        }
    }

    /// Whether this request, when it succeeds, hands a new resource to the
    /// caller.
    pub open spec fn acquires(self) -> bool {
        match self {
            SysCall::OpenScManager { .. } => true,
            SysCall::OpenService { .. } => true,
            SysCall::OpenProcess { .. } => true,
            SysCall::AllocateAttributeList { .. } => true,
            SysCall::OpenThreadToken { .. } => true,
            SysCall::OpenProcessToken { .. } => true,
            SysCall::CreateProcess { .. } => true,
            _ => false,
        }
    }
}

/// The handle that the pending request gives back to the operating system
/// when it is performed: one for a releasing request, none otherwise.
pub open spec fn released_by(call: Option<SysCall>) -> Multiset<usize> {
    match call {
        Some(call) => match call.released() {
            Some(handle) => Multiset::singleton(handle),
            None => Multiset::empty(),
        },
        None => Multiset::empty(),
    }
}

/// The handles that come into the caller's hands when `reply` answers the
/// pending request: both handles of a created process, the handle of any
/// other acquiring request that succeeded, and none otherwise.
pub open spec fn acquired_by(call: Option<SysCall>, reply: Reply) -> Multiset<usize> {
    match call {
        Some(SysCall::CreateProcess { .. }) => match reply {
            Reply::Created { process, thread, .. } => Multiset::singleton(process).insert(thread),
            _ => Multiset::empty(),
        },
        Some(call) => if call.acquires() {
            match reply.handle() {
                Some(raw) => Multiset::singleton(raw),
                None => Multiset::empty(),
            }
        } else {
            Multiset::empty()
        },
        None => Multiset::empty(),
    }
}

} // verus!
