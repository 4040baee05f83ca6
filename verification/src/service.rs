//! Finding the privileged host service: connect to the service control
//! manager, open the service, ask it to start, and poll until it runs.

use vstd::prelude::*;
use vstd::multiset::Multiset;
use vstd::string::StringExecFns;
use crate::constants::{
    ERROR_SERVICE_ALREADY_RUNNING, MAX_POLL_ATTEMPTS, POLL_INTERVAL_MS, SC_MANAGER_CONNECT,
    SERVICE_ACCESS, SERVICE_RUNNING, SERVICE_START_PENDING,
};
use crate::handle::{acquired_by, released_by, HandleGuard, HandleKind};
use crate::machine::{
    acquired, after, after_take_step, call_at, finished_prefix_decides,
    finishes_within_its_steps, nothing_held_means_all_released, released, Machine,
};
use crate::syscall::{Reply, SysCall};

verus! {

/// Name of the host service whose process lends its identity.
pub const SERVICE_NAME: &'static str = "TrustedInstaller";

/// Why the host service's process could not be found.
#[derive(Clone, Copy, Debug, PartialEq, Eq, Structural)]
pub enum ServiceError {
    /// The service control manager refused the connection.
    AccessDenied { code: u32 },
    /// The service could not be opened: its name is unknown, or the caller
    /// lacks the rights to start and query it.
    ServiceNotFound { code: u32 },
    /// The start request failed for a reason other than "already running".
    ServiceStartFailed { code: u32 },
    /// The service's status could not be read.
    QueryFailed { code: u32 },
    /// The service reported a state that is neither starting nor running.
    UnexpectedServiceState { state: u32 },
    /// The service was still starting when the attempts ran out.
    ServiceStartTimeout,
}

/// The locator's progress. Each state but the last waits on one request.
#[derive(Debug, PartialEq, Eq)]
pub enum ServiceLocator {
    /// Waiting for the connection to the service control manager.
    Connecting { name: String },
    /// Waiting for the service to be opened.
    Opening { name: String, manager: HandleGuard },
    /// Waiting for the answer to the start request.
    Starting { manager: HandleGuard, service: HandleGuard },
    /// Waiting for a status report; `attempts` reports said "starting" so far.
    Querying { manager: HandleGuard, service: HandleGuard, attempts: u32 },
    /// Waiting for the pause after the `attempts`-th "starting" report to end.
    Sleeping { manager: HandleGuard, service: HandleGuard, attempts: u32 },
    /// The outcome is known; the service handle is being released.
    ClosingService { manager: HandleGuard, service: HandleGuard, outcome: Result<u32, ServiceError> },
    /// The outcome is known; the manager handle is being released.
    ClosingManager { manager: HandleGuard, outcome: Result<u32, ServiceError> },
    /// Both handles are released.
    Finished { outcome: Result<u32, ServiceError> },
}

/// A guard for a service or manager handle.
pub open spec fn service_guard(raw: usize) -> HandleGuard {
    HandleGuard { raw, kind: HandleKind::Service }
}

/// Whether the answer to a start request lets the locator go on: the request
/// succeeded, or the service was running already.
pub open spec fn start_accepted(reply: Reply) -> bool {
    reply == Reply::Done || reply == (Reply::Failed { code: ERROR_SERVICE_ALREADY_RUNNING })
}

/// The count of "starting" reports after one more, never beyond the ceiling.
pub open spec fn next_attempt(attempts: u32) -> u32 {
    if attempts >= MAX_POLL_ATTEMPTS - 1 {
        MAX_POLL_ATTEMPTS
    } else {
        (attempts + 1) as u32
    }
}

/// What a status report means to a locator that has seen `attempts`
/// "starting" reports: the state that follows.
pub open spec fn after_status(
    manager: HandleGuard,
    service: HandleGuard,
    attempts: u32,
    reply: Reply,
) -> ServiceLocator {
    match reply {
        Reply::Status { state, pid } => {
            if state == SERVICE_RUNNING {
                ServiceLocator::ClosingService { manager, service, outcome: Ok(pid) }
            } else if state == SERVICE_START_PENDING {
                ServiceLocator::Sleeping { manager, service, attempts: next_attempt(attempts) }
            } else {
                ServiceLocator::ClosingService {
                    manager,
                    service,
                    outcome: Err(ServiceError::UnexpectedServiceState { state }),
                }
            }
        },
        _ => ServiceLocator::ClosingService {
            manager,
            service,
            outcome: Err(ServiceError::QueryFailed { code: reply.error_code() }),
        },
    }
}

impl ServiceLocator {
    /// The locator before its first request.
    pub open spec fn start(name: String) -> ServiceLocator {
        ServiceLocator::Connecting { name }
    }

    /// Begins to locate the service called `service_name`, starting it if it
    /// does not run yet.
    pub fn locate_and_start(service_name: String) -> (m: ServiceLocator)
        ensures
            m == ServiceLocator::start(service_name),
    {
        ServiceLocator::Connecting { name: service_name }
    }

    /// The outcome, once the locator has one: the service's process
    /// identifier, or the reason there is none. The outcome is fixed from the
    /// moment the locator begins to release its handles.
    pub open spec fn spec_outcome(&self) -> Option<Result<u32, ServiceError>> {
        match *self {
            ServiceLocator::ClosingService { outcome, .. } => Some(outcome),
            ServiceLocator::ClosingManager { outcome, .. } => Some(outcome),
            ServiceLocator::Finished { outcome } => Some(outcome),
            _ => None,
        }
    }

    /// The result of a finished locator, `None` while a request is pending.
    pub open spec fn spec_result(&self) -> Option<Result<u32, ServiceError>> {
        match *self {
            ServiceLocator::Finished { outcome } => Some(outcome),
            _ => None,
        }
    }

    /// The result of a finished locator, `None` while a request is pending.
    #[verifier::when_used_as_spec(spec_result)]
    pub fn result(&self) -> (r: Option<Result<u32, ServiceError>>)
        ensures
            r == self.spec_result(),
    {
        match self {
            ServiceLocator::Finished { outcome } => Some(*outcome),
            _ => None,
        }
    }
}

impl Machine for ServiceLocator {
    open spec fn spec_pending(&self) -> Option<SysCall> {
        match *self {
            ServiceLocator::Connecting { .. } => Some(
                SysCall::OpenScManager { access: SC_MANAGER_CONNECT },
            ),
            ServiceLocator::Opening { name, manager } => Some(
                SysCall::OpenService { manager: manager.raw, name, access: SERVICE_ACCESS },
            ),
            ServiceLocator::Starting { service, .. } => Some(
                SysCall::StartService { service: service.raw },
            ),
            ServiceLocator::Querying { service, .. } => Some(
                SysCall::QueryServiceStatus { service: service.raw },
            ),
            ServiceLocator::Sleeping { .. } => Some(SysCall::Sleep { millis: POLL_INTERVAL_MS }),
            ServiceLocator::ClosingService { service, .. } => Some(service.closing_call()),
            ServiceLocator::ClosingManager { manager, .. } => Some(manager.closing_call()),
            ServiceLocator::Finished { .. } => None,
        }
    }

    open spec fn spec_advance(self, reply: Reply) -> ServiceLocator {
        match self {
            ServiceLocator::Connecting { name } => match reply.handle() {
                Some(raw) => ServiceLocator::Opening { name, manager: service_guard(raw) },
                None => ServiceLocator::Finished {
                    outcome: Err(ServiceError::AccessDenied { code: reply.error_code() }),
                },
            },
            ServiceLocator::Opening { name, manager } => match reply.handle() {
                Some(raw) => ServiceLocator::Starting { manager, service: service_guard(raw) },
                None => ServiceLocator::ClosingManager {
                    manager,
                    outcome: Err(ServiceError::ServiceNotFound { code: reply.error_code() }),
                },
            },
            ServiceLocator::Starting { manager, service } => if start_accepted(reply) {
                ServiceLocator::Querying { manager, service, attempts: 0 }
            } else {
                ServiceLocator::ClosingService {
                    manager,
                    service,
                    outcome: Err(ServiceError::ServiceStartFailed { code: reply.error_code() }),
                }
            },
            ServiceLocator::Querying { manager, service, attempts } => after_status(
                manager,
                service,
                attempts,
                reply,
            ),
            ServiceLocator::Sleeping { manager, service, attempts } => if attempts
                >= MAX_POLL_ATTEMPTS {
                ServiceLocator::ClosingService {
                    manager,
                    service,
                    outcome: Err(ServiceError::ServiceStartTimeout),
                }
            } else {
                ServiceLocator::Querying { manager, service, attempts }
            },
            ServiceLocator::ClosingService { manager, service, outcome } => {
                ServiceLocator::ClosingManager { manager, outcome }
            },
            ServiceLocator::ClosingManager { manager, outcome } => ServiceLocator::Finished {
                outcome,
            },
            ServiceLocator::Finished { outcome } => ServiceLocator::Finished { outcome },
        }
    }

    /// Held handles are service handles and not null, and the attempt count
    /// is within its bounds.
    open spec fn well_formed(&self) -> bool {
        match *self {
            ServiceLocator::Connecting { .. } => true,
            ServiceLocator::Opening { manager, .. } => manager == service_guard(manager.raw)
                && manager.raw != 0,
            ServiceLocator::Starting { manager, service } => {
                &&& manager == service_guard(manager.raw) && manager.raw != 0
                &&& service == service_guard(service.raw) && service.raw != 0
            },
            ServiceLocator::Querying { manager, service, attempts } => {
                &&& manager == service_guard(manager.raw) && manager.raw != 0
                &&& service == service_guard(service.raw) && service.raw != 0
                &&& attempts < MAX_POLL_ATTEMPTS
            },
            ServiceLocator::Sleeping { manager, service, attempts } => {
                &&& manager == service_guard(manager.raw) && manager.raw != 0
                &&& service == service_guard(service.raw) && service.raw != 0
                &&& 1 <= attempts <= MAX_POLL_ATTEMPTS
            },
            ServiceLocator::ClosingService { manager, service, .. } => {
                &&& manager == service_guard(manager.raw) && manager.raw != 0
                &&& service == service_guard(service.raw) && service.raw != 0
            },
            ServiceLocator::ClosingManager { manager, .. } => manager == service_guard(manager.raw)
                && manager.raw != 0,
            ServiceLocator::Finished { .. } => true,
        }
    }

    /// The handles the locator owns in this state.
    open spec fn held(&self) -> Multiset<usize> {
        match *self {
            ServiceLocator::Connecting { .. } => Multiset::empty(),
            ServiceLocator::Opening { manager, .. } => Multiset::singleton(manager.raw),
            ServiceLocator::Starting { manager, service } => Multiset::singleton(
                manager.raw,
            ).insert(service.raw),
            ServiceLocator::Querying { manager, service, .. } => Multiset::singleton(
                manager.raw,
            ).insert(service.raw),
            ServiceLocator::Sleeping { manager, service, .. } => Multiset::singleton(
                manager.raw,
            ).insert(service.raw),
            ServiceLocator::ClosingService { manager, service, .. } => Multiset::singleton(
                manager.raw,
            ).insert(service.raw),
            ServiceLocator::ClosingManager { manager, .. } => Multiset::singleton(manager.raw),
            ServiceLocator::Finished { .. } => Multiset::empty(),
        }
    }

    open spec fn steps_left(&self) -> nat {
        match *self {
            ServiceLocator::Connecting { .. } => 45,
            ServiceLocator::Opening { .. } => 44,
            ServiceLocator::Starting { .. } => 43,
            ServiceLocator::Querying { attempts, .. } => (2 * (MAX_POLL_ATTEMPTS - attempts)
                + 2) as nat,
            ServiceLocator::Sleeping { attempts, .. } => (2 * (MAX_POLL_ATTEMPTS - attempts)
                + 3) as nat,
            ServiceLocator::ClosingService { .. } => 2,
            ServiceLocator::ClosingManager { .. } => 1,
            ServiceLocator::Finished { .. } => 0,
        }
    }

    proof fn finished_is_final(self, reply: Reply) {
    }

    proof fn advance_uses_a_step(self, reply: Reply) {
    }

    proof fn advance_keeps_well_formed(self, reply: Reply) {
    }

    proof fn advance_keeps_ledger(self, reply: Reply) {
        assert(self.spec_advance(reply).held().add(released_by(self.spec_pending()))
            =~= self.held().add(acquired_by(self.spec_pending(), reply)));
    }

    fn pending(&self) -> (call: Option<SysCall>) {
        match self {
            ServiceLocator::Connecting { .. } => Some(
                SysCall::OpenScManager { access: SC_MANAGER_CONNECT },
            ),
            ServiceLocator::Opening { name, manager } => Some(
                SysCall::OpenService {
                    manager: manager.raw,
                    name: name.clone(),
                    access: SERVICE_ACCESS,
                },
            ),
            ServiceLocator::Starting { service, .. } => Some(
                SysCall::StartService { service: service.raw },
            ),
            ServiceLocator::Querying { service, .. } => Some(
                SysCall::QueryServiceStatus { service: service.raw },
            ),
            ServiceLocator::Sleeping { .. } => Some(SysCall::Sleep { millis: POLL_INTERVAL_MS }),
            ServiceLocator::ClosingService { service, .. } => Some(service.closing_call()),
            ServiceLocator::ClosingManager { manager, .. } => Some(manager.closing_call()),
            ServiceLocator::Finished { .. } => None,
        }
    }

    fn advance(self, reply: Reply) -> (next: ServiceLocator) {
        match self {
            ServiceLocator::Connecting { name } => match reply.handle() {
                Some(raw) => ServiceLocator::Opening {
                    name,
                    manager: HandleGuard::new(raw, HandleKind::Service),
                },
                None => ServiceLocator::Finished {
                    outcome: Err(ServiceError::AccessDenied { code: reply.error_code() }),
                },
            },
            ServiceLocator::Opening { name, manager } => match reply.handle() {
                Some(raw) => ServiceLocator::Starting {
                    manager,
                    service: HandleGuard::new(raw, HandleKind::Service),
                },
                None => ServiceLocator::ClosingManager {
                    manager,
                    outcome: Err(ServiceError::ServiceNotFound { code: reply.error_code() }),
                },
            },
            ServiceLocator::Starting { manager, service } => {
                let accepted = match reply {
                    Reply::Done => true,
                    Reply::Failed { code } => code == ERROR_SERVICE_ALREADY_RUNNING,
                    _ => false,
                };
                if accepted {
                    ServiceLocator::Querying { manager, service, attempts: 0 }
                } else {
                    ServiceLocator::ClosingService {
                        manager,
                        service,
                        outcome: Err(
                            ServiceError::ServiceStartFailed { code: reply.error_code() },
                        ),
                    }
                }
            },
            ServiceLocator::Querying { manager, service, attempts } => match reply {
                Reply::Status { state, pid } => {
                    if state == SERVICE_RUNNING {
                        ServiceLocator::ClosingService { manager, service, outcome: Ok(pid) }
                    } else if state == SERVICE_START_PENDING {
                        let seen: u32 = if attempts >= MAX_POLL_ATTEMPTS - 1 {
                            MAX_POLL_ATTEMPTS
                        } else {
                            attempts + 1
                        };
                        ServiceLocator::Sleeping { manager, service, attempts: seen }
                    } else {
                        ServiceLocator::ClosingService {
                            manager,
                            service,
                            outcome: Err(ServiceError::UnexpectedServiceState { state }),
                        }
                    }
                },
                _ => ServiceLocator::ClosingService {
                    manager,
                    service,
                    outcome: Err(ServiceError::QueryFailed { code: reply.error_code() }),
                },
            },
            ServiceLocator::Sleeping { manager, service, attempts } => {
                if attempts >= MAX_POLL_ATTEMPTS {
                    ServiceLocator::ClosingService {
                        manager,
                        service,
                        outcome: Err(ServiceError::ServiceStartTimeout),
                    }
                } else {
                    ServiceLocator::Querying { manager, service, attempts }
                }
            },
            ServiceLocator::ClosingService { manager, service, outcome } => {
                ServiceLocator::ClosingManager { manager, outcome }
            },
            ServiceLocator::ClosingManager { manager, outcome } => ServiceLocator::Finished {
                outcome,
            },
            ServiceLocator::Finished { outcome } => ServiceLocator::Finished { outcome },
        }
    }
}

/// The host service as this crate knows it.
pub struct WindowsService;

impl WindowsService {
    /// Begins to find the process identifier of the host service,
    /// [`SERVICE_NAME`].
    pub fn get_trusted_installer_pid() -> (m: ServiceLocator)
        ensures
            m matches ServiceLocator::Connecting { name } && name@ == SERVICE_NAME@,
    {
        ServiceLocator::locate_and_start(String::from_str(SERVICE_NAME))
    }
}

/// Whether the `k`-th of `replies` answered a status query with "running"
/// and the process identifier `pid`.
pub open spec fn reported_running(m: ServiceLocator, replies: Seq<Reply>, k: int, pid: u32) -> bool {
    &&& 0 <= k < replies.len()
    &&& call_at(m, replies, k) matches Some(SysCall::QueryServiceStatus { .. })
    &&& replies[k] == (Reply::Status { state: SERVICE_RUNNING, pid })
}

/// A locator settles on a process identifier only when a status query was
/// answered "running" with that identifier, never from a transient state.
pub proof fn pid_only_from_running_report(m: ServiceLocator, replies: Seq<Reply>, pid: u32)
    requires
        m.spec_outcome() is None,
        after(m, replies).spec_outcome() == Some(Ok::<u32, ServiceError>(pid)),
    ensures
        exists|k: int| reported_running(m, replies, k, pid),
    decreases replies.len(),
{
    if replies.len() > 0 {
        let head = replies.drop_last();
        let before = after(m, head);
        if before.spec_outcome() is Some {
            pid_only_from_running_report(m, head, pid);
            let k = choose|k: int| reported_running(m, head, k, pid);
            assert(replies.take(k) =~= head.take(k));
            assert(reported_running(m, replies, k, pid));
        } else {
            let k = replies.len() - 1;
            assert(replies.take(k) =~= head);
            assert(reported_running(m, replies, k, pid));
        }
    }
}

/// The number of answers a locator has consumed when it is in one of its
/// first three states.
proof fn early_states_count_answers(name: String, replies: Seq<Reply>)
    ensures
        after(ServiceLocator::start(name), replies) is Connecting ==> replies.len() == 0,
        after(ServiceLocator::start(name), replies) is Opening ==> replies.len() == 1,
        after(ServiceLocator::start(name), replies) is Starting ==> replies.len() == 2,
    decreases replies.len(),
{
    if replies.len() > 0 {
        early_states_count_answers(name, replies.drop_last());
    }
}

/// A run of the locator holds at most one start request, and it is the third
/// request: whatever the answers, the service is never asked to start twice.
pub proof fn start_requested_once(name: String, replies: Seq<Reply>, k: int)
    requires
        0 <= k <= replies.len(),
        call_at(ServiceLocator::start(name), replies, k) matches Some(SysCall::StartService { .. }),
    ensures
        k == 2,
{
    early_states_count_answers(name, replies.take(k));
}

/// Locating a service that runs already gives the identifier it reports:
/// when both handles are obtained, the start request is answered "already
/// running" and the first status report says "running", the result is the
/// reported identifier, whatever the later answers are. Two such runs against
/// the same service agree.
pub proof fn running_service_is_located(name: String, replies: Seq<Reply>, pid: u32)
    requires
        replies.len() >= 6,
        replies[0].handle() is Some,
        replies[1].handle() is Some,
        replies[2] == (Reply::Failed { code: ERROR_SERVICE_ALREADY_RUNNING }),
        replies[3] == (Reply::Status { state: SERVICE_RUNNING, pid }),
    ensures
        after(ServiceLocator::start(name), replies).result() == Some(Ok::<u32, ServiceError>(pid)),
        forall|k: int|
            0 <= k <= replies.len() && k != 2 ==> !(#[trigger] call_at(
                ServiceLocator::start(name),
                replies,
                k,
            ) matches Some(SysCall::StartService { .. })),
{
    let m = ServiceLocator::start(name);
    assert(replies.take(0) =~= Seq::empty());
    after_take_step(m, replies, 0);
    after_take_step(m, replies, 1);
    after_take_step(m, replies, 2);
    after_take_step(m, replies, 3);
    after_take_step(m, replies, 4);
    after_take_step(m, replies, 5);
    assert(after(m, replies.take(6)).result() == Some(Ok::<u32, ServiceError>(pid)));
    assert(call_at(m, replies, 6) is None);
    finished_prefix_decides(m, replies, 6, replies.len() as int);
    assert(replies.take(replies.len() as int) =~= replies);
    assert forall|k: int| 0 <= k <= replies.len() && k != 2 implies !(#[trigger] call_at(
        m,
        replies,
        k,
    ) matches Some(SysCall::StartService { .. })) by {
        if call_at(m, replies, k) matches Some(SysCall::StartService { .. }) {
            start_requested_once(name, replies, k);
        }
    }
}

/// Whether the answers describe a service that never leaves "starting": both
/// handles are obtained, the start request is accepted, and each of the
/// twenty status queries is answered "start pending".
pub open spec fn stuck_in_start_pending(replies: Seq<Reply>) -> bool {
    &&& replies.len() >= 3 + 2 * MAX_POLL_ATTEMPTS + 2
    &&& replies[0].handle() is Some
    &&& replies[1].handle() is Some
    &&& start_accepted(replies[2])
    &&& forall|j: int|
        0 <= j < MAX_POLL_ATTEMPTS ==> (#[trigger] replies[3 + 2 * j] matches Reply::Status {
            state,
            ..
        } && state == SERVICE_START_PENDING)
}

/// The state of a locator against a stuck service after `j` rounds of query
/// and pause.
proof fn stuck_rounds(name: String, replies: Seq<Reply>, j: int)
    requires
        stuck_in_start_pending(replies),
        0 <= j <= MAX_POLL_ATTEMPTS,
    ensures
        j < MAX_POLL_ATTEMPTS ==> after(ServiceLocator::start(name), replies.take(3 + 2 * j))
            == (ServiceLocator::Querying {
            manager: service_guard(replies[0].handle().unwrap()),
            service: service_guard(replies[1].handle().unwrap()),
            attempts: j as u32,
        }),
        j == MAX_POLL_ATTEMPTS ==> after(ServiceLocator::start(name), replies.take(3 + 2 * j))
            == (ServiceLocator::ClosingService {
            manager: service_guard(replies[0].handle().unwrap()),
            service: service_guard(replies[1].handle().unwrap()),
            outcome: Err(ServiceError::ServiceStartTimeout),
        }),
    decreases j,
{
    let m = ServiceLocator::start(name);
    if j == 0 {
        assert(replies.take(0) =~= Seq::empty());
        after_take_step(m, replies, 0);
        after_take_step(m, replies, 1);
        after_take_step(m, replies, 2);
    } else {
        stuck_rounds(name, replies, j - 1);
        assert(replies[3 + 2 * (j - 1)] matches Reply::Status { state, .. } && state
            == SERVICE_START_PENDING);
        after_take_step(m, replies, 3 + 2 * (j - 1));
        after_take_step(m, replies, 3 + 2 * (j - 1) + 1);
    }
}

/// A service that stays in "start pending" for all twenty status queries
/// makes the locator give up with [`ServiceError::ServiceStartTimeout`], after
/// it has released both handles.
pub proof fn stuck_service_times_out(name: String, replies: Seq<Reply>)
    requires
        stuck_in_start_pending(replies),
    ensures
        after(ServiceLocator::start(name), replies).result() == Some(
            Err::<u32, ServiceError>(ServiceError::ServiceStartTimeout),
        ),
        after(ServiceLocator::start(name), replies.take(3 + 2 * MAX_POLL_ATTEMPTS))
            is ClosingService,
{
    let m = ServiceLocator::start(name);
    let n = 3 + 2 * MAX_POLL_ATTEMPTS;
    stuck_rounds(name, replies, MAX_POLL_ATTEMPTS as int);
    after_take_step(m, replies, n);
    after_take_step(m, replies, n + 1);
    assert(call_at(m, replies, n + 2) is None);
    finished_prefix_decides(m, replies, n + 2, replies.len() as int);
    assert(replies.take(replies.len() as int) =~= replies);
}

/// The wait for the service is bounded: a locator has finished once it has
/// consumed 45 answers, whatever they are. That is three requests to get to
/// the first query, twenty rounds of query and pause, and two releases.
pub proof fn locator_finishes(name: String, replies: Seq<Reply>)
    requires
        replies.len() >= 45,
    ensures
        after(ServiceLocator::start(name), replies).result() is Some,
{
    finishes_within_its_steps(ServiceLocator::start(name), replies);
}

/// A locator returns with both handles released, on success and on failure:
/// once it has a result, every handle its answers brought was released by one
/// of its requests, exactly once.
pub proof fn locator_returns_with_handles_released(name: String, replies: Seq<Reply>)
    requires
        after(ServiceLocator::start(name), replies).result() is Some,
    ensures
        released(ServiceLocator::start(name), replies) == acquired(
            ServiceLocator::start(name),
            replies,
        ),
{
    nothing_held_means_all_released(ServiceLocator::start(name), replies);
}

} // verus!
