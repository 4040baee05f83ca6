//! Access tokens of the caller itself: the thread's token, had by
//! impersonating the caller's own security context first, and the process's
//! token.

use vstd::prelude::*;
use vstd::multiset::Multiset;
use vstd::string::StringExecFns;
use crate::constants::TOKEN_ACCESS;
use crate::error::{ElevateError, ElevateResult, TiError, TokenErrorKind};
use crate::handle::{acquired_by, released_by, HandleGuard, HandleKind};
use crate::machine::{after, call_at, Machine};
use crate::models::object_guard;
use crate::privilege::{
    all_token_privileges, is_privilege_table, sweep_start_sweeps, sweep_step, PrivilegeChange,
    PrivilegeError, PrivilegeOutcome, PrivilegeSweep, PrivilegeTally,
};
use crate::syscall::{Reply, SysCall};

verus! {

/// The handle that stands for the calling process itself.
pub const CURRENT_PROCESS: usize = usize::MAX;

/// Name of the privilege to inspect and adjust other processes.
pub const DEBUG_PRIVILEGE: &'static str = "SeDebugPrivilege";

/// Why an access token could not be had.
#[derive(Clone, Copy, Debug, PartialEq, Eq, Structural)]
pub enum TokenError {
    /// The token could not be opened.
    TokenAcquisitionFailed { code: u32 },
}

/// Why a privilege was not changed on the caller's own thread.
#[derive(Debug, PartialEq, Eq)]
pub enum SelfElevationError {
    /// The thread's token could not be had.
    Token(TokenError),
    /// The token was had and the privilege was not changed.
    Privilege(PrivilegeError),
}

/// What a finished change means for the thread: its outcome, with a failure
/// marked as one of the privilege.
pub open spec fn thread_outcome(outcome: Result<PrivilegeOutcome, PrivilegeError>) -> Result<
    PrivilegeOutcome,
    SelfElevationError,
> {
    match outcome {
        Ok(done) => Ok(done),
        Err(e) => Err(SelfElevationError::Privilege(e)),
    }
}

/// The failure to get the thread's token, with the code of the answer that
/// was not a success.
pub open spec fn acquisition_failed(reply: Reply) -> Result<PrivilegeOutcome, SelfElevationError> {
    Err(
        SelfElevationError::Token(TokenError::TokenAcquisitionFailed { code: reply.error_code() }),
    )
}

/// Enabling one privilege on the calling thread's own token.
#[derive(Debug, PartialEq, Eq)]
pub enum ThreadPrivilege {
    /// Waiting for the thread to impersonate the caller's own context.
    Impersonating { name: String },
    /// Waiting for the thread's token.
    OpeningToken { name: String },
    /// The privilege is being enabled on the token.
    Changing { token: HandleGuard, change: PrivilegeChange },
    /// The outcome is known; the token is being released.
    ClosingToken { token: HandleGuard, outcome: Result<PrivilegeOutcome, SelfElevationError> },
    /// The token is released.
    Finished { outcome: Result<PrivilegeOutcome, SelfElevationError> },
}

impl ThreadPrivilege {
    /// The operation before its first request.
    pub open spec fn start(name: String) -> ThreadPrivilege {
        ThreadPrivilege::Impersonating { name }
    }

    /// Begins to enable the privilege called `name` for the calling thread.
    pub fn set_privilege(name: String) -> (m: ThreadPrivilege)
        ensures
            m == ThreadPrivilege::start(name),
    {
        ThreadPrivilege::Impersonating { name }
    }

    /// The state the operation is in once its change is in the given state.
    pub open spec fn spec_changed(token: HandleGuard, change: PrivilegeChange) -> ThreadPrivilege {
        match change {
            PrivilegeChange::Finished { outcome } => ThreadPrivilege::ClosingToken {
                token,
                outcome: thread_outcome(outcome),
            },
            _ => ThreadPrivilege::Changing { token, change },
        }
    }

    fn changed(token: HandleGuard, change: PrivilegeChange) -> (m: ThreadPrivilege)
        ensures
            m == ThreadPrivilege::spec_changed(token, change),
    {
        match change {
            PrivilegeChange::Finished { outcome } => ThreadPrivilege::ClosingToken {
                token,
                outcome: match outcome {
                    Ok(done) => Ok(done),
                    Err(e) => Err(SelfElevationError::Privilege(e)),
                },
            },
            other => ThreadPrivilege::Changing { token, change: other },
        }
    }

    /// The result of a finished operation, `None` while a request is pending.
    pub open spec fn spec_result(self) -> Option<Result<PrivilegeOutcome, SelfElevationError>> {
        match self {
            ThreadPrivilege::Finished { outcome } => Some(outcome),
            _ => None,
        }
    }

    /// Whether the operation has finished, and how.
    pub open spec fn spec_succeeded(&self) -> Option<bool> {
        match *self {
            ThreadPrivilege::Finished { outcome } => Some(outcome is Ok),
            _ => None,
        }
    }

    /// Whether the operation has finished, and how: `Some(true)` when the
    /// privilege was enabled or passed over, `Some(false)` when it failed,
    /// `None` while a request is pending.
    #[verifier::when_used_as_spec(spec_succeeded)]
    pub fn succeeded(&self) -> (b: Option<bool>)
        ensures
            b == self.spec_succeeded(),
    {
        match self {
            ThreadPrivilege::Finished { outcome } => Some(outcome.is_ok()),
            _ => None,
        }
    }

    /// Takes the result out of a finished operation; `None` while a request
    /// is pending.
    pub fn into_result(self) -> (r: Option<Result<PrivilegeOutcome, SelfElevationError>>)
        ensures
            r == self.spec_result(),
    {
        match self {
            ThreadPrivilege::Finished { outcome } => Some(outcome),
            _ => None,
        }
    }
}

impl Machine for ThreadPrivilege {
    open spec fn spec_pending(&self) -> Option<SysCall> {
        match *self {
            ThreadPrivilege::Impersonating { .. } => Some(SysCall::ImpersonateSelf),
            ThreadPrivilege::OpeningToken { .. } => Some(
                SysCall::OpenThreadToken { access: TOKEN_ACCESS },
            ),
            ThreadPrivilege::Changing { change, .. } => change.spec_pending(),
            ThreadPrivilege::ClosingToken { token, .. } => Some(token.closing_call()),
            ThreadPrivilege::Finished { .. } => None,
        }
    }

    open spec fn spec_advance(self, reply: Reply) -> ThreadPrivilege {
        match self {
            ThreadPrivilege::Impersonating { name } => if reply.is_done() {
                ThreadPrivilege::OpeningToken { name }
            } else {
                ThreadPrivilege::Finished { outcome: acquisition_failed(reply) }
            },
            ThreadPrivilege::OpeningToken { name } => match reply.handle() {
                Some(raw) => ThreadPrivilege::Changing {
                    token: object_guard(raw),
                    change: PrivilegeChange::start(raw, name, true),
                },
                None => ThreadPrivilege::Finished { outcome: acquisition_failed(reply) },
            },
            ThreadPrivilege::Changing { token, change } => ThreadPrivilege::spec_changed(
                token,
                change.spec_advance(reply),
            ),
            ThreadPrivilege::ClosingToken { token, outcome } => ThreadPrivilege::Finished {
                outcome,
            },
            ThreadPrivilege::Finished { outcome } => ThreadPrivilege::Finished { outcome },
        }
    }

    /// The token is guarded as a token, and a change at work has not
    /// finished.
    open spec fn well_formed(&self) -> bool {
        match *self {
            ThreadPrivilege::Changing { token, change } => token == object_guard(token.raw) && !(
            change is Finished),
            ThreadPrivilege::ClosingToken { token, .. } => token == object_guard(token.raw),
            _ => true,
        }
    }

    open spec fn steps_left(&self) -> nat {
        match *self {
            ThreadPrivilege::Impersonating { .. } => 5,
            ThreadPrivilege::OpeningToken { .. } => 4,
            ThreadPrivilege::Changing { change, .. } => change.steps_left() + 1,
            ThreadPrivilege::ClosingToken { .. } => 1,
            ThreadPrivilege::Finished { .. } => 0,
        }
    }

    open spec fn held(&self) -> Multiset<usize> {
        match *self {
            ThreadPrivilege::Changing { token, .. } => Multiset::singleton(token.raw),
            ThreadPrivilege::ClosingToken { token, .. } => Multiset::singleton(token.raw),
            _ => Multiset::empty(),
        }
    }

    proof fn finished_is_final(self, reply: Reply) {
    }

    proof fn advance_uses_a_step(self, reply: Reply) {
    }

    proof fn advance_keeps_well_formed(self, reply: Reply) {
    }

    proof fn advance_keeps_ledger(self, reply: Reply) {
        assert(self.spec_advance(reply).held().add(released_by(self.spec_pending()))
            =~= self.held().add(acquired_by(self.spec_pending(), reply)));
    }

    fn pending(&self) -> (call: Option<SysCall>) {
        match self {
            ThreadPrivilege::Impersonating { .. } => Some(SysCall::ImpersonateSelf),
            ThreadPrivilege::OpeningToken { .. } => Some(
                SysCall::OpenThreadToken { access: TOKEN_ACCESS },
            ),
            ThreadPrivilege::Changing { change, .. } => change.pending(),
            ThreadPrivilege::ClosingToken { token, .. } => Some(token.closing_call()),
            ThreadPrivilege::Finished { .. } => None,
        }
    }

    fn advance(self, reply: Reply) -> (next: ThreadPrivilege) {
        let code = reply.error_code();
        match self {
            ThreadPrivilege::Impersonating { name } => {
                if reply.is_done() {
                    ThreadPrivilege::OpeningToken { name }
                } else {
                    ThreadPrivilege::Finished {
                        outcome: Err(
                            SelfElevationError::Token(TokenError::TokenAcquisitionFailed { code }),
                        ),
                    }
                }
            },
            ThreadPrivilege::OpeningToken { name } => match reply.handle() {
                Some(raw) => ThreadPrivilege::Changing {
                    token: HandleGuard::new(raw, HandleKind::Object),
                    change: PrivilegeChange::enable(raw, name),
                },
                None => ThreadPrivilege::Finished {
                    outcome: Err(
                        SelfElevationError::Token(TokenError::TokenAcquisitionFailed { code }),
                    ),
                },
            },
            ThreadPrivilege::Changing { token, change } => ThreadPrivilege::changed(
                token,
                change.advance(reply),
            ),
            ThreadPrivilege::ClosingToken { token, outcome } => ThreadPrivilege::Finished {
                outcome,
            },
            ThreadPrivilege::Finished { outcome } => ThreadPrivilege::Finished { outcome },
        }
    }
}

/// The first states of the operation count its answers.
proof fn thread_token_steps(name: String, replies: Seq<Reply>)
    ensures
        ({
            let m = after(ThreadPrivilege::start(name), replies);
            &&& m is Impersonating ==> replies.len() == 0
            &&& m is OpeningToken ==> replies.len() == 1 && replies[0] == Reply::Done
            &&& m is Changing || m is ClosingToken ==> replies.len() >= 2 && replies[0]
                == Reply::Done && replies[1].handle() is Some
            &&& m.spec_result() matches Some(Err(SelfElevationError::Token(_))) ==> replies.len()
                >= 1 && (replies[0] != Reply::Done || (replies.len() >= 2
                && replies[1].handle() is None))
        }),
    decreases replies.len(),
{
    if replies.len() > 0 {
        let head = replies.drop_last();
        thread_token_steps(name, head);
        if head.len() > 0 {
            assert(head[0] == replies[0]);
        }
        if head.len() > 1 {
            assert(head[1] == replies[1]);
        }
    }
}

/// The thread's token is asked for only after the thread impersonates the
/// caller: the request for the token is the second request, made with the
/// rights to adjust and query and only when the impersonation succeeded; and
/// nothing is asked about a privilege before the token is there.
pub proof fn token_follows_impersonation(name: String, replies: Seq<Reply>, k: int)
    requires
        0 <= k <= replies.len(),
    ensures
        ({
            let start = ThreadPrivilege::start(name);
            &&& call_at(start, replies, k) matches Some(SysCall::OpenThreadToken { access })
                ==> k == 1 && replies[0] == Reply::Done && access == TOKEN_ACCESS
            &&& (call_at(start, replies, k) matches Some(call) && call.is_privilege_call()) ==> k
                >= 2 && replies[0] == Reply::Done && replies[1].handle() is Some
        }),
{
    let prefix = replies.take(k);
    thread_token_steps(name, prefix);
    if k > 0 {
        assert(prefix[0] == replies[0]);
    }
    if k > 1 {
        assert(prefix[1] == replies[1]);
    }
}

/// Enabling every privilege of a list on the token of a process: open the
/// token, sweep through the list, release the token. The only failure is that
/// the token cannot be had.
#[derive(Debug, PartialEq, Eq)]
pub enum ProcessEscalation {
    /// Waiting for the process's token.
    OpeningToken { process: usize, names: Vec<String> },
    /// The privileges are being enabled on the token, one by one.
    Sweeping { token: HandleGuard, sweep: PrivilegeSweep },
    /// Every privilege was tried; the token is being released. `last` is how
    /// the last privilege of the list ended.
    ClosingToken {
        token: HandleGuard,
        tally: PrivilegeTally,
        last: Option<Result<PrivilegeOutcome, PrivilegeError>>,
    },
    /// The token is released, or was never had.
    Finished { outcome: Result<PrivilegeTally, TokenError> },
}

impl ProcessEscalation {
    /// The escalation before its first request.
    pub open spec fn start(process: usize, names: Vec<String>) -> ProcessEscalation {
        ProcessEscalation::OpeningToken { process, names }
    }

    /// Begins to enable each privilege of `names` on the token of the process
    /// behind the handle `process`.
    pub fn set_all_privileges(process: usize, names: Vec<String>) -> (m: ProcessEscalation)
        ensures
            m == ProcessEscalation::start(process, names),
    {
        ProcessEscalation::OpeningToken { process, names }
    }

    /// The state an escalation is in once its sweep is in the given state.
    pub open spec fn spec_swept(token: HandleGuard, sweep: PrivilegeSweep) -> ProcessEscalation {
        match sweep {
            PrivilegeSweep::Finished { tally, last } => ProcessEscalation::ClosingToken {
                token,
                tally,
                last,
            },
            _ => ProcessEscalation::Sweeping { token, sweep },
        }
    }

    fn swept(token: HandleGuard, sweep: PrivilegeSweep) -> (m: ProcessEscalation)
        ensures
            m == ProcessEscalation::spec_swept(token, sweep),
    {
        match sweep {
            PrivilegeSweep::Finished { tally, last } => ProcessEscalation::ClosingToken {
                token,
                tally,
                last,
            },
            other => ProcessEscalation::Sweeping { token, sweep: other },
        }
    }

    /// The result of a finished escalation, `None` while a request is
    /// pending.
    pub open spec fn spec_result(&self) -> Option<Result<PrivilegeTally, TokenError>> {
        match *self {
            ProcessEscalation::Finished { outcome } => Some(outcome),
            _ => None,
        }
    }

    /// The result of a finished escalation, `None` while a request is
    /// pending.
    #[verifier::when_used_as_spec(spec_result)]
    pub fn result(&self) -> (r: Option<Result<PrivilegeTally, TokenError>>)
        ensures
            r == self.spec_result(),
    {
        match self {
            ProcessEscalation::Finished { outcome } => Some(*outcome),
            _ => None,
        }
    }

    /// How the privilege ended that the latest answer settled, if it settled
    /// one.
    pub open spec fn spec_last_outcome(&self) -> Option<Result<PrivilegeOutcome, PrivilegeError>> {
        match *self {
            ProcessEscalation::Sweeping { sweep, .. } => match sweep {
                PrivilegeSweep::Enabling { last, .. } => last,
                PrivilegeSweep::Finished { last, .. } => last,
            },
            ProcessEscalation::ClosingToken { last, .. } => last,
            _ => None,
        }
    }

    /// How the privilege ended that the latest answer settled, if it settled
    /// one: what an embedding program writes to its log.
    pub fn last_outcome(&self) -> (last: &Option<Result<PrivilegeOutcome, PrivilegeError>>)
        ensures
            *last == self.spec_last_outcome(),
    {
        match self {
            ProcessEscalation::Sweeping { sweep, .. } => sweep.last_outcome(),
            ProcessEscalation::ClosingToken { last, .. } => last,
            _ => &None,
        }
    }

    /// Whether this state belongs to an escalation that is to enable `list`:
    /// it still carries the list, or sweeps over it on its token, or has
    /// counted an outcome for each of its entries.
    pub open spec fn escalates(&self, list: Vec<String>) -> bool {
        match *self {
            ProcessEscalation::OpeningToken { names, .. } => names == list,
            ProcessEscalation::Sweeping { token, sweep } => sweep.sweeps(token.raw, list),
            ProcessEscalation::ClosingToken { tally, .. } => tally.total() == list@.len(),
            ProcessEscalation::Finished { outcome } => outcome matches Ok(tally) ==> tally.total()
                == list@.len(),
        }
    }
}

impl Machine for ProcessEscalation {
    open spec fn spec_pending(&self) -> Option<SysCall> {
        match *self {
            ProcessEscalation::OpeningToken { process, .. } => Some(
                SysCall::OpenProcessToken { process, access: TOKEN_ACCESS },
            ),
            ProcessEscalation::Sweeping { sweep, .. } => sweep.spec_pending(),
            ProcessEscalation::ClosingToken { token, .. } => Some(token.closing_call()),
            ProcessEscalation::Finished { .. } => None,
        }
    }

    open spec fn spec_advance(self, reply: Reply) -> ProcessEscalation {
        match self {
            ProcessEscalation::OpeningToken { process, names } => match reply.handle() {
                Some(raw) => ProcessEscalation::spec_swept(
                    object_guard(raw),
                    PrivilegeSweep::start(raw, names),
                ),
                None => ProcessEscalation::Finished {
                    outcome: Err(TokenError::TokenAcquisitionFailed { code: reply.error_code() }),
                },
            },
            ProcessEscalation::Sweeping { token, sweep } => ProcessEscalation::spec_swept(
                token,
                sweep.spec_advance(reply),
            ),
            ProcessEscalation::ClosingToken { token, tally, last } => ProcessEscalation::Finished {
                outcome: Ok(tally),
            },
            ProcessEscalation::Finished { outcome } => ProcessEscalation::Finished { outcome },
        }
    }

    /// The token is guarded as a token, and a sweep at work has not
    /// finished.
    open spec fn well_formed(&self) -> bool {
        match *self {
            ProcessEscalation::Sweeping { token, sweep } => token == object_guard(token.raw)
                && sweep.well_formed() && sweep is Enabling,
            ProcessEscalation::ClosingToken { token, .. } => token == object_guard(token.raw),
            _ => true,
        }
    }

    /// The request for the token, two answers for each name, and the
    /// release of the token.
    open spec fn steps_left(&self) -> nat {
        match *self {
            ProcessEscalation::OpeningToken { names, .. } => 2 * names@.len() + 2,
            ProcessEscalation::Sweeping { sweep, .. } => sweep.steps_left() + 1,
            ProcessEscalation::ClosingToken { .. } => 1,
            ProcessEscalation::Finished { .. } => 0,
        }
    }

    open spec fn held(&self) -> Multiset<usize> {
        match *self {
            ProcessEscalation::Sweeping { token, .. } => Multiset::singleton(token.raw),
            ProcessEscalation::ClosingToken { token, .. } => Multiset::singleton(token.raw),
            _ => Multiset::empty(),
        }
    }

    proof fn finished_is_final(self, reply: Reply) {
    }

    proof fn advance_uses_a_step(self, reply: Reply) {
        match self {
            ProcessEscalation::Sweeping { sweep, .. } => {
                sweep.advance_uses_a_step(reply);
            },
            _ => {},
        }
    }

    proof fn advance_keeps_well_formed(self, reply: Reply) {
        match self {
            ProcessEscalation::Sweeping { sweep, .. } => {
                sweep.advance_keeps_well_formed(reply);
            },
            _ => {},
        }
    }

    proof fn advance_keeps_ledger(self, reply: Reply) {
        assert(self.spec_advance(reply).held().add(released_by(self.spec_pending()))
            =~= self.held().add(acquired_by(self.spec_pending(), reply)));
    }

    fn pending(&self) -> (call: Option<SysCall>) {
        match self {
            ProcessEscalation::OpeningToken { process, .. } => Some(
                SysCall::OpenProcessToken { process: *process, access: TOKEN_ACCESS },
            ),
            ProcessEscalation::Sweeping { sweep, .. } => sweep.pending(),
            ProcessEscalation::ClosingToken { token, .. } => Some(token.closing_call()),
            ProcessEscalation::Finished { .. } => None,
        }
    }

    fn advance(self, reply: Reply) -> (next: ProcessEscalation) {
        match self {
            ProcessEscalation::OpeningToken { process, names } => match reply.handle() {
                Some(raw) => ProcessEscalation::swept(
                    HandleGuard::new(raw, HandleKind::Object),
                    PrivilegeSweep::enable_all_known(raw, names),
                ),
                None => ProcessEscalation::Finished {
                    outcome: Err(TokenError::TokenAcquisitionFailed { code: reply.error_code() }),
                },
            },
            ProcessEscalation::Sweeping { token, sweep } => ProcessEscalation::swept(
                token,
                sweep.advance(reply),
            ),
            ProcessEscalation::ClosingToken { token, tally, last } => ProcessEscalation::Finished {
                outcome: Ok(tally),
            },
            ProcessEscalation::Finished { outcome } => ProcessEscalation::Finished { outcome },
        }
    }
}

/// A step leads from a state of an escalation that is to enable `list` to a
/// state of an escalation that is to enable `list`.
pub proof fn escalation_step(m: ProcessEscalation, list: Vec<String>, reply: Reply)
    requires
        m.escalates(list),
    ensures
        m.spec_advance(reply).escalates(list),
{
    match m {
        ProcessEscalation::OpeningToken { process, names } => {
            if reply.handle() is Some {
                sweep_start_sweeps(reply.handle().unwrap(), names);
            }
        },
        ProcessEscalation::Sweeping { token, sweep } => {
            sweep_step(sweep, token.raw, list, reply);
        },
        _ => {},
    }
}

/// What holds of an escalation after any answers.
proof fn escalation_after(process: usize, names: Vec<String>, replies: Seq<Reply>)
    ensures
        ({
            let m = after(ProcessEscalation::start(process, names), replies);
            &&& m.escalates(names)
            &&& m.spec_result() matches Some(Err(_)) ==> replies.len() > 0
                && replies[0].handle() is None
        }),
    decreases replies.len(),
{
    let start = ProcessEscalation::start(process, names);
    if replies.len() > 0 {
        let head = replies.drop_last();
        escalation_after(process, names, head);
        escalation_step(after(start, head), names, replies.last());
        if head.len() > 0 {
            assert(head[0] == replies[0]);
        }
    }
}

/// An escalation fails only when the token cannot be had: if it ends in an
/// error, the request for the token was not answered with a handle; and if it
/// ends in success, an outcome was counted for every privilege of the list,
/// however the single privileges ended.
pub proof fn escalation_fails_only_without_token(
    process: usize,
    names: Vec<String>,
    replies: Seq<Reply>,
)
    ensures
        ({
            let end = after(ProcessEscalation::start(process, names), replies);
            &&& end.spec_result() matches Some(Err(_)) ==> replies.len() > 0
                && replies[0].handle() is None
            &&& end.spec_result() matches Some(Ok(tally)) ==> tally.total() == names@.len()
        }),
{
    escalation_after(process, names, replies);
}

/// The token of the calling process.
#[derive(Debug, PartialEq, Eq)]
pub struct TokenManager {
    pub handle: HandleGuard,
}

impl TokenManager {
    /// The request that opens the calling process's token with the rights
    /// to adjust privileges and to query.
    pub fn request() -> (call: SysCall)
        ensures
            call == (SysCall::OpenProcessToken { process: CURRENT_PROCESS, access: TOKEN_ACCESS }),
    {
        SysCall::OpenProcessToken { process: CURRENT_PROCESS, access: TOKEN_ACCESS }
    }

    /// Takes over the token that the answer to [`TokenManager::request`]
    /// brought, or reports that it brought none.
    pub fn new(reply: Reply) -> (r: ElevateResult<TokenManager>)
        ensures
            r == (match reply.handle() {
                Some(raw) => Ok::<TokenManager, ElevateError>(
                    TokenManager { handle: object_guard(raw) },
                ),
                None => Err(ElevateError::TokenError { kind: TokenErrorKind::OpenProcessToken }),
            }),
    {
        match reply.handle() {
            Some(raw) => Ok(TokenManager { handle: HandleGuard::new(raw, HandleKind::Object) }),
            None => Err(ElevateError::TokenError { kind: TokenErrorKind::OpenProcessToken }),
        }
    }

    /// Gives the token up: the request that releases it.
    pub fn release(self) -> (call: Option<SysCall>)
        ensures
            call == (if self.handle.is_null() {
                None
            } else {
                Some(self.handle.closing_call())
            }),
    {
        self.handle.release()
    }
}

/// The caller's own standing: the privilege that lets it open the host
/// service's process, enabled on its thread.
#[derive(Debug, PartialEq, Eq)]
pub struct SecurityContext {
    pub setup: ThreadPrivilege,
}

impl SecurityContext {
    /// Begins to raise the caller's own standing.
    pub fn new() -> (context: SecurityContext)
        ensures
            context.setup matches ThreadPrivilege::Impersonating { name } && name@
                == DEBUG_PRIVILEGE@,
    {
        SecurityContext { setup: ThreadPrivilege::set_privilege(String::from_str(DEBUG_PRIVILEGE)) }
    }

    /// Why the caller's standing was not raised, once that is settled:
    /// `None` while a request is pending and when the privilege was enabled
    /// or passed over.
    pub fn failure(&self) -> (e: Option<TiError>)
        ensures
            match self.setup {
                ThreadPrivilege::Finished { outcome: Err(why) } => e matches Some(
                    TiError::PrivilegeError(detail),
                ) && detail@ == why.text(),
                _ => e is None,
            },
    {
        match &self.setup {
            ThreadPrivilege::Finished { outcome } => match outcome {
                Err(why) => Some(why.to_ti_error()),
                Ok(_) => None,
            },
            _ => None,
        }
    }

    /// Begins to enable every known privilege on the token of the process
    /// behind `process_handle`.
    pub fn set_all_privileges(&self, process_handle: usize) -> (m: ProcessEscalation)
        ensures
            m matches ProcessEscalation::OpeningToken { process, names } && process
                == process_handle && is_privilege_table(names@),
    {
        ProcessEscalation::set_all_privileges(process_handle, all_token_privileges())
    }
}

impl Machine for SecurityContext {
    open spec fn spec_pending(&self) -> Option<SysCall> {
        self.setup.spec_pending()
    }

    open spec fn spec_advance(self, reply: Reply) -> SecurityContext {
        SecurityContext { setup: self.setup.spec_advance(reply) }
    }

    open spec fn well_formed(&self) -> bool {
        self.setup.well_formed()
    }

    open spec fn steps_left(&self) -> nat {
        self.setup.steps_left()
    }

    open spec fn held(&self) -> Multiset<usize> {
        self.setup.held()
    }

    proof fn finished_is_final(self, reply: Reply) {
    }

    proof fn advance_uses_a_step(self, reply: Reply) {
        self.setup.advance_uses_a_step(reply);
    }

    proof fn advance_keeps_well_formed(self, reply: Reply) {
    }

    proof fn advance_keeps_ledger(self, reply: Reply) {
        self.setup.advance_keeps_ledger(reply);
    }

    fn pending(&self) -> (call: Option<SysCall>) {
        self.setup.pending()
    }

    fn advance(self, reply: Reply) -> (next: SecurityContext) {
        SecurityContext { setup: self.setup.advance(reply) }
    }
}

} // verus!
