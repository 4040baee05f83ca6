//! Enabling and disabling named privileges on an access token, one at a time
//! or all the known ones in a sweep that no single failure stops.

use vstd::prelude::*;
use vstd::multiset::Multiset;
use vstd::string::StringExecFns;
use crate::constants::{ERROR_NO_SUCH_PRIVILEGE, MAX_PRIVILEGES, SE_PRIVILEGE_ENABLED};
use crate::handle::{acquired_by, released_by};
use crate::machine::{after, after_take_step, call_at, finishes_within_its_steps, Machine};
use crate::syscall::{Luid, Reply, SysCall};

verus! {

/// The names of the known privileges, in the order a sweep goes through them.
pub open spec fn privilege_table() -> Seq<Seq<char>> {
    seq![
        "SeAssignPrimaryTokenPrivilege"@,
        "SeAuditPrivilege"@,
        "SeBackupPrivilege"@,
        "SeChangeNotifyPrivilege"@,
        "SeCreateGlobalPrivilege"@,
        "SeCreatePagefilePrivilege"@,
        "SeCreatePermanentPrivilege"@,
        "SeCreateSymbolicLinkPrivilege"@,
        "SeCreateTokenPrivilege"@,
        "SeDebugPrivilege"@,
        "SeDelegateSessionUserImpersonatePrivilege"@,
        "SeEnableDelegationPrivilege"@,
        "SeImpersonatePrivilege"@,
        "SeIncreaseQuotaPrivilege"@,
        "SeIncreaseBasePriorityPrivilege"@,
        "SeIncreaseWorkingSetPrivilege"@,
        "SeLoadDriverPrivilege"@,
        "SeLockMemoryPrivilege"@,
        "SeMachineAccountPrivilege"@,
        "SeManageVolumePrivilege"@,
        "SeProfileSingleProcessPrivilege"@,
        "SeRelabelPrivilege"@,
        "SeRemoteShutdownPrivilege"@,
        "SeRestorePrivilege"@,
        "SeSecurityPrivilege"@,
        "SeShutdownPrivilege"@,
        "SeSyncAgentPrivilege"@,
        "SeSystemtimePrivilege"@,
        "SeSystemEnvironmentPrivilege"@,
        "SeSystemProfilePrivilege"@,
        "SeTakeOwnershipPrivilege"@,
        "SeTcbPrivilege"@,
        "SeTimeZonePrivilege"@,
        "SeTrustedCredManAccessPrivilege"@,
        "SeUndockPrivilege"@,
        "SeUnsolicitedInputPrivilege"@,
    ]
}

/// The name at position `index` of the privilege table.
pub fn privilege_name(index: usize) -> (name: &'static str)
    requires
        index < MAX_PRIVILEGES,
    ensures
        name@ == privilege_table()[index as int],
{
    match index {
        0 => "SeAssignPrimaryTokenPrivilege",
        1 => "SeAuditPrivilege",
        2 => "SeBackupPrivilege",
        3 => "SeChangeNotifyPrivilege",
        4 => "SeCreateGlobalPrivilege",
        5 => "SeCreatePagefilePrivilege",
        6 => "SeCreatePermanentPrivilege",
        7 => "SeCreateSymbolicLinkPrivilege",
        8 => "SeCreateTokenPrivilege",
        9 => "SeDebugPrivilege",
        10 => "SeDelegateSessionUserImpersonatePrivilege",
        11 => "SeEnableDelegationPrivilege",
        12 => "SeImpersonatePrivilege",
        13 => "SeIncreaseQuotaPrivilege",
        14 => "SeIncreaseBasePriorityPrivilege",
        15 => "SeIncreaseWorkingSetPrivilege",
        16 => "SeLoadDriverPrivilege",
        17 => "SeLockMemoryPrivilege",
        18 => "SeMachineAccountPrivilege",
        19 => "SeManageVolumePrivilege",
        20 => "SeProfileSingleProcessPrivilege",
        21 => "SeRelabelPrivilege",
        22 => "SeRemoteShutdownPrivilege",
        23 => "SeRestorePrivilege",
        24 => "SeSecurityPrivilege",
        25 => "SeShutdownPrivilege",
        26 => "SeSyncAgentPrivilege",
        27 => "SeSystemtimePrivilege",
        28 => "SeSystemEnvironmentPrivilege",
        29 => "SeSystemProfilePrivilege",
        30 => "SeTakeOwnershipPrivilege",
        31 => "SeTcbPrivilege",
        32 => "SeTimeZonePrivilege",
        33 => "SeTrustedCredManAccessPrivilege",
        34 => "SeUndockPrivilege",
        _ => "SeUnsolicitedInputPrivilege",
    }
}

/// Whether `names` spells the privilege table, entry by entry.
pub open spec fn is_privilege_table(names: Seq<String>) -> bool {
    &&& names.len() == MAX_PRIVILEGES
    &&& forall|i: int| 0 <= i < names.len() ==> (#[trigger] names[i])@ == privilege_table()[i]
}

/// The privilege table as owned strings.
pub fn all_token_privileges() -> (names: Vec<String>)
    ensures
        is_privilege_table(names@),
{
    let mut names: Vec<String> = Vec::new();
    let mut i: usize = 0;
    while i < MAX_PRIVILEGES
        invariant
            i <= MAX_PRIVILEGES,
            names@.len() == i,
            forall|j: int| 0 <= j < i ==> (#[trigger] names@[j])@ == privilege_table()[j],
        decreases MAX_PRIVILEGES - i,
    {
        names.push(String::from_str(privilege_name(i)));
        i += 1;
    }
    names
}

/// Why one privilege was not changed. Both variants name the privilege.
#[derive(Debug, PartialEq, Eq)]
pub enum PrivilegeError {
    /// The name could not be resolved, for a reason other than that the
    /// system does not know it.
    LookupFailed { name: String, code: u32 },
    /// The token refused the adjustment.
    AdjustFailed { name: String, code: u32 },
}

/// What became of one privilege when nothing went wrong.
#[derive(Clone, Copy, Debug, PartialEq, Eq, Structural)]
pub enum PrivilegeOutcome {
    /// The privilege now has the requested attributes on the token.
    Applied,
    /// The system does not know the privilege; nothing was changed.
    Skipped,
}

/// Changing one privilege on a token. The token is borrowed: the machine
/// neither opens nor closes it.
#[derive(Debug, PartialEq, Eq)]
pub enum PrivilegeChange {
    /// Waiting for the name to be resolved.
    LookingUp { token: usize, name: String, enable: bool },
    /// Waiting for the token to be adjusted.
    Adjusting { token: usize, name: String, enable: bool, luid: Luid },
    /// The change is over.
    Finished { outcome: Result<PrivilegeOutcome, PrivilegeError> },
}

/// The attributes that enable or disable a privilege.
pub open spec fn privilege_attributes(enable: bool) -> u32 {
    if enable {
        SE_PRIVILEGE_ENABLED
    } else {
        0
    }
}

impl PrivilegeChange {
    /// The change before its first request.
    pub open spec fn start(token: usize, name: String, enable: bool) -> PrivilegeChange {
        PrivilegeChange::LookingUp { token, name, enable }
    }

    /// Begins to enable the privilege called `name` on `token`.
    pub fn enable(token: usize, name: String) -> (m: PrivilegeChange)
        ensures
            m == PrivilegeChange::start(token, name, true),
    {
        PrivilegeChange::LookingUp { token, name, enable: true }
    }

    /// Begins to disable the privilege called `name` on `token`.
    pub fn disable(token: usize, name: String) -> (m: PrivilegeChange)
        ensures
            m == PrivilegeChange::start(token, name, false),
    {
        PrivilegeChange::LookingUp { token, name, enable: false }
    }

    /// The token, the name and the direction of a change that has not
    /// finished.
    pub open spec fn subject(self) -> Option<(usize, String, bool)> {
        match self {
            PrivilegeChange::LookingUp { token, name, enable } => Some((token, name, enable)),
            PrivilegeChange::Adjusting { token, name, enable, .. } => Some((token, name, enable)),
            PrivilegeChange::Finished { .. } => None,
        }
    }

    /// The result of a finished change, `None` while a request is pending.
    pub open spec fn spec_result(self) -> Option<Result<PrivilegeOutcome, PrivilegeError>> {
        match self {
            PrivilegeChange::Finished { outcome } => Some(outcome),
            _ => None,
        }
    }

    /// Whether the change has finished.
    pub open spec fn spec_is_finished(&self) -> bool {
        *self is Finished
    }

    /// Whether the change has finished.
    #[verifier::when_used_as_spec(spec_is_finished)]
    pub fn is_finished(&self) -> (b: bool)
        ensures
            b == self.spec_is_finished(),
    {
        match self {
            PrivilegeChange::Finished { .. } => true,
            _ => false,
        }
    }

    /// Takes the result out of a finished change; `None` while a request is
    /// pending.
    pub fn into_result(self) -> (r: Option<Result<PrivilegeOutcome, PrivilegeError>>)
        ensures
            r == self.spec_result(),
    {
        match self {
            PrivilegeChange::Finished { outcome } => Some(outcome),
            _ => None,
        }
    }
}

impl Machine for PrivilegeChange {
    open spec fn spec_pending(&self) -> Option<SysCall> {
        match *self {
            PrivilegeChange::LookingUp { name, .. } => Some(SysCall::LookupPrivilegeValue { name }),
            PrivilegeChange::Adjusting { token, enable, luid, .. } => Some(
                SysCall::AdjustTokenPrivilege {
                    token,
                    luid,
                    attributes: privilege_attributes(enable),
                },
            ),
            PrivilegeChange::Finished { .. } => None,
        }
    }

    open spec fn spec_advance(self, reply: Reply) -> PrivilegeChange {
        match self {
            PrivilegeChange::LookingUp { token, name, enable } => match reply {
                Reply::Resolved { luid } => PrivilegeChange::Adjusting { token, name, enable, luid },
                _ => if reply == (Reply::Failed { code: ERROR_NO_SUCH_PRIVILEGE }) {
                    PrivilegeChange::Finished { outcome: Ok(PrivilegeOutcome::Skipped) }
                } else {
                    PrivilegeChange::Finished {
                        outcome: Err(
                            PrivilegeError::LookupFailed { name, code: reply.error_code() },
                        ),
                    }
                },
            },
            PrivilegeChange::Adjusting { token, name, enable, luid } => if reply.is_done() {
                PrivilegeChange::Finished { outcome: Ok(PrivilegeOutcome::Applied) }
            } else {
                PrivilegeChange::Finished {
                    outcome: Err(PrivilegeError::AdjustFailed { name, code: reply.error_code() }),
                }
            },
            PrivilegeChange::Finished { outcome } => PrivilegeChange::Finished { outcome },
        }
    }

    open spec fn well_formed(&self) -> bool {
        true
    }

    open spec fn steps_left(&self) -> nat {
        match *self {
            PrivilegeChange::LookingUp { .. } => 2,
            PrivilegeChange::Adjusting { .. } => 1,
            PrivilegeChange::Finished { .. } => 0,
        }
    }

    open spec fn held(&self) -> Multiset<usize> {
        Multiset::empty()
    }

    proof fn finished_is_final(self, reply: Reply) {
    }

    proof fn advance_uses_a_step(self, reply: Reply) {
    }

    proof fn advance_keeps_well_formed(self, reply: Reply) {
    }

    proof fn advance_keeps_ledger(self, reply: Reply) {
        assert(self.spec_advance(reply).held().add(released_by(self.spec_pending()))
            =~= self.held().add(acquired_by(self.spec_pending(), reply)));
    }

    fn pending(&self) -> (call: Option<SysCall>) {
        match self {
            PrivilegeChange::LookingUp { name, .. } => Some(
                SysCall::LookupPrivilegeValue { name: name.clone() },
            ),
            PrivilegeChange::Adjusting { token, enable, luid, .. } => Some(
                SysCall::AdjustTokenPrivilege {
                    token: *token,
                    luid: *luid,
                    attributes: if *enable {
                        SE_PRIVILEGE_ENABLED
                    } else {
                        0
                    },
                },
            ),
            PrivilegeChange::Finished { .. } => None,
        }
    }

    fn advance(self, reply: Reply) -> (next: PrivilegeChange) {
        let code = reply.error_code();
        match self {
            PrivilegeChange::LookingUp { token, name, enable } => match reply {
                Reply::Resolved { luid } => PrivilegeChange::Adjusting { token, name, enable, luid },
                Reply::Failed { code: failure } => if failure == ERROR_NO_SUCH_PRIVILEGE {
                    PrivilegeChange::Finished { outcome: Ok(PrivilegeOutcome::Skipped) }
                } else {
                    PrivilegeChange::Finished {
                        outcome: Err(PrivilegeError::LookupFailed { name, code }),
                    }
                },
                _ => PrivilegeChange::Finished {
                    outcome: Err(PrivilegeError::LookupFailed { name, code }),
                },
            },
            PrivilegeChange::Adjusting { token, name, enable, luid } => {
                if reply.is_done() {
                    PrivilegeChange::Finished { outcome: Ok(PrivilegeOutcome::Applied) }
                } else {
                    PrivilegeChange::Finished {
                        outcome: Err(PrivilegeError::AdjustFailed { name, code }),
                    }
                }
            },
            PrivilegeChange::Finished { outcome } => PrivilegeChange::Finished { outcome },
        }
    }
}

/// A privilege the system does not know is passed over: the change ends in
/// success after the lookup, and the token is never touched.
pub proof fn unknown_privilege_is_skipped(token: usize, name: String, enable: bool)
    ensures
        PrivilegeChange::start(token, name, enable).spec_advance(
            Reply::Failed { code: ERROR_NO_SUCH_PRIVILEGE },
        ) == (PrivilegeChange::Finished { outcome: Ok(PrivilegeOutcome::Skipped) }),
{
}

/// A failure of a change names the privilege it was asked to change.
pub proof fn failure_names_the_privilege(
    token: usize,
    name: String,
    enable: bool,
    replies: Seq<Reply>,
)
    ensures
        ({
            let m = after(PrivilegeChange::start(token, name, enable), replies);
            &&& m matches PrivilegeChange::LookingUp { name: n, .. } ==> n == name
            &&& m matches PrivilegeChange::Adjusting { name: n, .. } ==> n == name
            &&& m.spec_result() matches Some(Err(PrivilegeError::LookupFailed { name: n, .. }))
                ==> n == name
            &&& m.spec_result() matches Some(Err(PrivilegeError::AdjustFailed { name: n, .. }))
                ==> n == name
        }),
    decreases replies.len(),
{
    if replies.len() > 0 {
        failure_names_the_privilege(token, name, enable, replies.drop_last());
    }
}

/// How many privileges of a sweep ended in which way.
#[derive(Clone, Copy, Debug, PartialEq, Eq, Structural)]
pub struct PrivilegeTally {
    /// Privileges now enabled on the token.
    pub enabled: usize,
    /// Privileges the system does not know.
    pub skipped: usize,
    /// Privileges whose lookup or adjustment failed.
    pub failed: usize,
}

/// One more, unless the count is at its type's limit.
pub open spec fn bump(count: usize) -> usize {
    if count < usize::MAX {
        (count + 1) as usize
    } else {
        count
    }
}

impl PrivilegeTally {
    /// The tally before any privilege was tried.
    pub open spec fn zero() -> PrivilegeTally {
        PrivilegeTally { enabled: 0, skipped: 0, failed: 0 }
    }

    /// The number of privileges that were tried.
    pub open spec fn total(self) -> int {
        self.enabled + self.skipped + self.failed
    }

    /// The tally after one more privilege ended with `outcome`.
    pub open spec fn with(self, outcome: Result<PrivilegeOutcome, PrivilegeError>) -> PrivilegeTally {
        match outcome {
            Ok(PrivilegeOutcome::Applied) => PrivilegeTally { enabled: bump(self.enabled), ..self },
            Ok(PrivilegeOutcome::Skipped) => PrivilegeTally { skipped: bump(self.skipped), ..self },
            Err(_) => PrivilegeTally { failed: bump(self.failed), ..self },
        }
    }

    /// Counts one more privilege that ended with `outcome`.
    pub fn record(self, outcome: &Result<PrivilegeOutcome, PrivilegeError>) -> (t: PrivilegeTally)
        ensures
            t == self.with(*outcome),
    {
        let PrivilegeTally { enabled, skipped, failed } = self;
        match outcome {
            Ok(PrivilegeOutcome::Applied) => PrivilegeTally {
                enabled: if enabled < usize::MAX {
                    enabled + 1
                } else {
                    enabled
                },
                skipped,
                failed,
            },
            Ok(PrivilegeOutcome::Skipped) => PrivilegeTally {
                enabled,
                skipped: if skipped < usize::MAX {
                    skipped + 1
                } else {
                    skipped
                },
                failed,
            },
            Err(_) => PrivilegeTally {
                enabled,
                skipped,
                failed: if failed < usize::MAX {
                    failed + 1
                } else {
                    failed
                },
            },
        }
    }
}

/// Enabling every privilege of a list on one token, in order. A privilege
/// that fails is counted and the sweep goes on to the next.
#[derive(Debug, PartialEq, Eq)]
pub enum PrivilegeSweep {
    /// Working on `names[index]`; `last` is how the privilege before it
    /// ended, if the latest answer ended it.
    Enabling {
        token: usize,
        names: Vec<String>,
        index: usize,
        change: PrivilegeChange,
        tally: PrivilegeTally,
        last: Option<Result<PrivilegeOutcome, PrivilegeError>>,
    },
    /// Every privilege of the list was tried.
    Finished { tally: PrivilegeTally, last: Option<Result<PrivilegeOutcome, PrivilegeError>> },
}

impl PrivilegeSweep {
    /// The sweep before its first request.
    pub open spec fn start(token: usize, names: Vec<String>) -> PrivilegeSweep {
        if names@.len() == 0 {
            PrivilegeSweep::Finished { tally: PrivilegeTally::zero(), last: None }
        } else {
            PrivilegeSweep::Enabling {
                token,
                names,
                index: 0,
                change: PrivilegeChange::start(token, names@[0], true),
                tally: PrivilegeTally::zero(),
                last: None,
            }
        }
    }

    /// The state that follows when the privilege at `index` has ended with
    /// `outcome`: the next privilege, or the end of the list.
    pub open spec fn next_privilege(
        token: usize,
        names: Vec<String>,
        index: usize,
        tally: PrivilegeTally,
        outcome: Result<PrivilegeOutcome, PrivilegeError>,
    ) -> PrivilegeSweep {
        if index + 1 < names@.len() {
            PrivilegeSweep::Enabling {
                token,
                names,
                index: (index + 1) as usize,
                change: PrivilegeChange::start(token, names@[index + 1], true),
                tally: tally.with(outcome),
                last: Some(outcome),
            }
        } else {
            PrivilegeSweep::Finished { tally: tally.with(outcome), last: Some(outcome) }
        }
    }

    /// Begins to enable each privilege of `names` on `token`, in order.
    pub fn enable_all_known(token: usize, names: Vec<String>) -> (m: PrivilegeSweep)
        ensures
            m == PrivilegeSweep::start(token, names),
    {
        if names.len() == 0 {
            PrivilegeSweep::Finished {
                tally: PrivilegeTally { enabled: 0, skipped: 0, failed: 0 },
                last: None,
            }
        } else {
            let first = names[0].clone();
            PrivilegeSweep::Enabling {
                token,
                names,
                index: 0,
                change: PrivilegeChange::enable(token, first),
                tally: PrivilegeTally { enabled: 0, skipped: 0, failed: 0 },
                last: None,
            }
        }
    }

    /// The counts so far.
    pub open spec fn spec_tally(&self) -> PrivilegeTally {
        match *self {
            PrivilegeSweep::Enabling { tally, .. } => tally,
            PrivilegeSweep::Finished { tally, .. } => tally,
        }
    }

    /// The counts so far.
    #[verifier::when_used_as_spec(spec_tally)]
    pub fn tally(&self) -> (t: PrivilegeTally)
        ensures
            t == self.spec_tally(),
    {
        match self {
            PrivilegeSweep::Enabling { tally, .. } => *tally,
            PrivilegeSweep::Finished { tally, .. } => *tally,
        }
    }

    /// Whether every privilege of the list was tried.
    pub open spec fn spec_is_finished(&self) -> bool {
        *self is Finished
    }

    /// Whether every privilege of the list was tried.
    #[verifier::when_used_as_spec(spec_is_finished)]
    pub fn is_finished(&self) -> (b: bool)
        ensures
            b == self.spec_is_finished(),
    {
        match self {
            PrivilegeSweep::Finished { .. } => true,
            _ => false,
        }
    }

    /// How the privilege ended that the latest answer settled, if it settled
    /// one.
    pub open spec fn spec_last_outcome(&self) -> Option<Result<PrivilegeOutcome, PrivilegeError>> {
        match *self {
            PrivilegeSweep::Enabling { last, .. } => last,
            PrivilegeSweep::Finished { last, .. } => last,
        }
    }

    /// How the privilege ended that the latest answer settled, if it settled
    /// one: what an embedding program writes to its log.
    pub fn last_outcome(&self) -> (last: &Option<Result<PrivilegeOutcome, PrivilegeError>>)
        ensures
            *last == self.spec_last_outcome(),
    {
        match self {
            PrivilegeSweep::Enabling { last, .. } => last,
            PrivilegeSweep::Finished { last, .. } => last,
        }
    }

    /// Whether this state belongs to a sweep over `list` on `token`: it works
    /// on an entry of the list, has counted one outcome for each entry before
    /// it, and, once finished, has counted one for each entry of the list.
    pub open spec fn sweeps(&self, token: usize, list: Vec<String>) -> bool {
        match *self {
            PrivilegeSweep::Enabling { token: t, names, index, change, tally, .. } => {
                &&& t == token
                &&& names == list
                &&& index < names@.len()
                &&& tally.total() == index
                &&& change.subject() == Some((token, names@[index as int], true))
            },
            PrivilegeSweep::Finished { tally, .. } => tally.total() == list@.len(),
        }
    }
}

impl Machine for PrivilegeSweep {
    open spec fn spec_pending(&self) -> Option<SysCall> {
        match *self {
            PrivilegeSweep::Enabling { change, .. } => change.spec_pending(),
            PrivilegeSweep::Finished { .. } => None,
        }
    }

    open spec fn spec_advance(self, reply: Reply) -> PrivilegeSweep {
        match self {
            PrivilegeSweep::Enabling { token, names, index, change, tally, last } => {
                match change.spec_advance(reply).spec_result() {
                    Some(outcome) => PrivilegeSweep::next_privilege(
                        token,
                        names,
                        index,
                        tally,
                        outcome,
                    ),
                    None => PrivilegeSweep::Enabling {
                        token,
                        names,
                        index,
                        change: change.spec_advance(reply),
                        tally,
                        last: None,
                    },
                }
            },
            PrivilegeSweep::Finished { tally, last } => PrivilegeSweep::Finished { tally, last },
        }
    }

    /// The sweep works on an entry of its list with a change that has not
    /// finished.
    open spec fn well_formed(&self) -> bool {
        match *self {
            PrivilegeSweep::Enabling { names, index, change, .. } => index < names@.len() && !(
            change is Finished),
            PrivilegeSweep::Finished { .. } => true,
        }
    }

    /// Two answers for each name that is still to be tried, one less when
    /// the name at work is resolved already.
    open spec fn steps_left(&self) -> nat {
        match *self {
            PrivilegeSweep::Enabling { names, index, change, .. } => {
                let rest = 2 * (names@.len() - index);
                if change is Adjusting {
                    (rest - 1) as nat
                } else {
                    rest as nat
                }
            },
            PrivilegeSweep::Finished { .. } => 0,
        }
    }

    open spec fn held(&self) -> Multiset<usize> {
        Multiset::empty()
    }

    proof fn finished_is_final(self, reply: Reply) {
    }

    proof fn advance_uses_a_step(self, reply: Reply) {
        match self {
            PrivilegeSweep::Enabling { names, change, .. } => {
                assert(names@.len() == names.len());
                change.advance_uses_a_step(reply);
            },
            _ => {},
        }
    }

    proof fn advance_keeps_well_formed(self, reply: Reply) {
    }

    proof fn advance_keeps_ledger(self, reply: Reply) {
        assert(self.spec_advance(reply).held().add(released_by(self.spec_pending()))
            =~= self.held().add(acquired_by(self.spec_pending(), reply)));
    }

    fn pending(&self) -> (call: Option<SysCall>) {
        match self {
            PrivilegeSweep::Enabling { change, .. } => change.pending(),
            PrivilegeSweep::Finished { .. } => None,
        }
    }

    fn advance(self, reply: Reply) -> (next: PrivilegeSweep) {
        match self {
            PrivilegeSweep::Enabling { token, names, index, change, tally, last } => {
                let stepped = change.advance(reply);
                if stepped.is_finished() {
                    match stepped.into_result() {
                        Some(outcome) => {
                            let counted = tally.record(&outcome);
                            if index < names.len() && index + 1 < names.len() {
                                let name = names[index + 1].clone();
                                PrivilegeSweep::Enabling {
                                    token,
                                    names,
                                    index: index + 1,
                                    change: PrivilegeChange::enable(token, name),
                                    tally: counted,
                                    last: Some(outcome),
                                }
                            } else {
                                PrivilegeSweep::Finished { tally: counted, last: Some(outcome) }
                            }
                        },
                        None => PrivilegeSweep::Finished { tally, last: None },
                    }
                } else {
                    PrivilegeSweep::Enabling {
                        token,
                        names,
                        index,
                        change: stepped,
                        tally,
                        last: None,
                    }
                }
            },
            PrivilegeSweep::Finished { tally, last } => PrivilegeSweep::Finished { tally, last },
        }
    }
}

/// A step leads from a state of a sweep over `list` to a state of a sweep
/// over `list`.
pub proof fn sweep_step(m: PrivilegeSweep, token: usize, list: Vec<String>, reply: Reply)
    requires
        m.sweeps(token, list),
    ensures
        m.spec_advance(reply).sweeps(token, list),
{
    assert(list@.len() == list.len());
}

/// A sweep begins as a sweep over its list.
pub proof fn sweep_start_sweeps(token: usize, list: Vec<String>)
    ensures
        PrivilegeSweep::start(token, list).sweeps(token, list),
{
}

/// What holds of a sweep after any answers.
proof fn sweep_after(token: usize, names: Vec<String>, replies: Seq<Reply>)
    ensures
        after(PrivilegeSweep::start(token, names), replies).sweeps(token, names),
    decreases replies.len(),
{
    let start = PrivilegeSweep::start(token, names);
    if replies.len() > 0 {
        let head = replies.drop_last();
        sweep_after(token, names, head);
        sweep_step(after(start, head), token, names, replies.last());
    }
}

/// A sweep never stops in the middle of its list: however the single
/// privileges end, it has finished after two answers for each name, and a
/// finished sweep has counted an outcome for every name of the list. There is
/// no failure for it to end in.
pub proof fn sweep_tries_every_privilege(token: usize, names: Vec<String>, replies: Seq<Reply>)
    ensures
        after(PrivilegeSweep::start(token, names), replies) matches PrivilegeSweep::Finished {
            tally,
            ..
        } ==> tally.total() == names@.len(),
        replies.len() >= 2 * names@.len() ==> after(PrivilegeSweep::start(token, names), replies)
            is Finished,
{
    sweep_after(token, names, replies);
    if replies.len() >= 2 * names@.len() {
        finishes_within_its_steps(PrivilegeSweep::start(token, names), replies);
    }
}

/// The state of a sweep whose first `k` lookups all failed.
proof fn failing_lookups(token: usize, names: Vec<String>, replies: Seq<Reply>, k: int)
    requires
        0 <= k <= names@.len() <= replies.len(),
        forall|i: int| 0 <= i < names@.len() ==> #[trigger] replies[i] is Failed,
    ensures
        ({
            let m = after(PrivilegeSweep::start(token, names), replies.take(k));
            &&& m.spec_tally().enabled == 0
            &&& m.spec_tally().total() == k
            &&& k < names@.len() ==> (m matches PrivilegeSweep::Enabling { index, change, .. }
                && index == k && change == PrivilegeChange::start(token, names@[k], true))
            &&& k == names@.len() ==> m is Finished
        }),
    decreases k,
{
    let start = PrivilegeSweep::start(token, names);
    if k == 0 {
        assert(replies.take(0) =~= Seq::empty());
    } else {
        failing_lookups(token, names, replies, k - 1);
        sweep_after(token, names, replies.take(k - 1));
        assert(replies[k - 1] is Failed);
        after_take_step(start, replies, k - 1);
        assert(names@.len() == names.len());
    }
}

/// A sweep on a token for which every lookup fails still runs to its end:
/// after one failed lookup for each name it has finished, with every name
/// counted as skipped or failed, none as enabled, and without ever having
/// asked for the token to be adjusted.
pub proof fn sweep_survives_failing_lookups(token: usize, names: Vec<String>, replies: Seq<Reply>)
    requires
        replies.len() == names@.len(),
        forall|i: int| 0 <= i < names@.len() ==> #[trigger] replies[i] is Failed,
    ensures
        after(PrivilegeSweep::start(token, names), replies) matches PrivilegeSweep::Finished {
            tally,
            ..
        } && tally.enabled == 0 && tally.skipped + tally.failed == names@.len(),
        forall|k: int|
            0 <= k < replies.len() ==> #[trigger] call_at(
                PrivilegeSweep::start(token, names),
                replies,
                k,
            ) == Some(SysCall::LookupPrivilegeValue { name: names@[k] }),
{
    let start = PrivilegeSweep::start(token, names);
    failing_lookups(token, names, replies, names@.len() as int);
    assert(replies.take(replies.len() as int) =~= replies);
    assert forall|k: int| 0 <= k < replies.len() implies #[trigger] call_at(start, replies, k)
        == Some(SysCall::LookupPrivilegeValue { name: names@[k] }) by {
        failing_lookups(token, names, replies, k);
    }
}

} // verus!
