use elevatekit::error::{ElevateError, WindowsError, WindowsErrorKind};
use elevatekit::handle::{HandleGuard, HandleKind};
use elevatekit::machine::{replay, Machine};
use elevatekit::models::{ProcessInfo, ProcessState};
use elevatekit::process::{LifecycleError, LifecycleOutcome, ProcessLifecycle};
use elevatekit::services::{ProcessExt, ProcessService, WindowsProcessService};
use elevatekit::syscall::{Reply, SysCall};

fn record(state: ProcessState) -> ProcessInfo {
    ProcessInfo {
        handle: HandleGuard::new(30, HandleKind::Object),
        thread_handle: HandleGuard::new(31, HandleKind::Object),
        process_id: 1234,
        thread_id: 5678,
        state,
    }
}

#[test]
fn resume_turns_a_suspended_process_into_a_resumed_one() {
    let machine = ProcessLifecycle::resume(record(ProcessState::Suspended));
    assert_eq!(machine.pending(), Some(SysCall::ResumeThread { thread: 31 }));
    let end = machine.advance(Reply::Done);
    assert_eq!(end.result(), Some(Ok(LifecycleOutcome::Resumed)));
    assert_eq!(end.pending(), None);
    assert_eq!(end.into_record(), record(ProcessState::Resumed));
}

#[test]
fn failed_resume_leaves_the_process_suspended() {
    let end = ProcessLifecycle::resume(record(ProcessState::Suspended)).advance(Reply::Failed { code: 5 });
    assert_eq!(end.result(), Some(Err(LifecycleError::ResumeFailed { code: 5 })));
    assert_eq!(end.into_record(), record(ProcessState::Suspended));
}

#[test]
fn a_process_is_not_resumed_twice() {
    let first = ProcessLifecycle::resume(record(ProcessState::Suspended)).advance(Reply::Done);
    let resumed = first.into_record();
    let (second, calls) = replay(ProcessLifecycle::resume(resumed), &vec![Reply::Done, Reply::Done]);
    assert!(calls.is_empty());
    assert_eq!(second.result(), Some(Err(LifecycleError::NotSuspended)));
    assert_eq!(second.into_record(), record(ProcessState::Resumed));
}

#[test]
fn an_exited_process_is_not_resumed() {
    let machine = ProcessLifecycle::resume(record(ProcessState::Exited { code: 0 }));
    assert_eq!(machine.pending(), None);
    assert_eq!(machine.result(), Some(Err(LifecycleError::NotSuspended)));
}

#[test]
fn wait_returns_the_exit_code_unchanged() {
    for code in [0u32, 1, 3, 259, 0xC000_0005, u32::MAX] {
        let machine = ProcessLifecycle::wait_for_exit(record(ProcessState::Resumed), None);
        assert_eq!(machine.pending(), Some(SysCall::WaitForExit { process: 30, timeout: None }));
        let (end, calls) = replay(machine, &vec![Reply::Signaled, Reply::ExitCode { code }]);
        assert_eq!(calls[1], SysCall::GetExitCode { process: 30 });
        assert_eq!(end.result(), Some(Ok(LifecycleOutcome::Exited { code })));
        assert_eq!(end.into_record(), record(ProcessState::Exited { code }));
    }
}

#[test]
fn zero_timeout_on_a_running_process_is_a_wait_timeout() {
    let machine = ProcessLifecycle::wait_for_exit(record(ProcessState::Resumed), Some(0));
    assert_eq!(machine.pending(), Some(SysCall::WaitForExit { process: 30, timeout: Some(0) }));
    let end = machine.advance(Reply::TimedOut);
    assert_eq!(end.result(), Some(Ok(LifecycleOutcome::WaitTimeout)));
    assert!(!matches!(end.result(), Some(Err(_))));
    assert_eq!(end.pending(), None);
    assert_eq!(end.into_record(), record(ProcessState::Resumed));
}

#[test]
fn failed_wait_is_an_error() {
    let end = ProcessLifecycle::wait_for_exit(record(ProcessState::Resumed), Some(10))
        .advance(Reply::Failed { code: 6 });
    assert_eq!(end.result(), Some(Err(LifecycleError::WaitFailed { code: 6 })));
}

#[test]
fn unreadable_exit_code_is_an_error() {
    let (end, _) = replay(
        ProcessLifecycle::wait_for_exit(record(ProcessState::Resumed), None),
        &vec![Reply::Signaled, Reply::Failed { code: 5 }],
    );
    assert_eq!(end.result(), Some(Err(LifecycleError::WaitFailed { code: 5 })));
    assert_eq!(end.into_record(), record(ProcessState::Resumed));
}

#[test]
fn probe_tells_running_from_ended() {
    let running = ProcessLifecycle::is_running(record(ProcessState::Resumed));
    assert_eq!(running.pending(), Some(SysCall::GetExitCode { process: 30 }));
    let running = running.advance(Reply::ExitCode { code: 259 });
    assert_eq!(running.result(), Some(Ok(LifecycleOutcome::Probed { running: true })));

    let ended = ProcessLifecycle::is_running(record(ProcessState::Resumed)).advance(Reply::ExitCode { code: 0 });
    assert_eq!(ended.result(), Some(Ok(LifecycleOutcome::Probed { running: false })));
    assert_eq!(ended.into_record(), record(ProcessState::Resumed));
}

#[test]
fn failed_probe_is_status_unavailable() {
    let end = ProcessLifecycle::is_running(record(ProcessState::Resumed)).advance(Reply::Failed { code: 5 });
    assert_eq!(end.result(), Some(Err(LifecycleError::StatusUnavailable { code: 5 })));
}

#[test]
fn service_and_record_begin_the_same_operations() {
    let service = WindowsProcessService::new();
    assert_eq!(
        service.resume_process(record(ProcessState::Suspended)),
        ProcessLifecycle::Resuming { record: record(ProcessState::Suspended) }
    );
    assert_eq!(
        service.wait_for_exit(record(ProcessState::Resumed)),
        ProcessLifecycle::Waiting { record: record(ProcessState::Resumed), timeout: None }
    );
    assert_eq!(
        ProcessExt::wait_for_exit(record(ProcessState::Resumed)),
        ProcessLifecycle::Waiting { record: record(ProcessState::Resumed), timeout: None }
    );
    assert_eq!(
        ProcessExt::is_running(record(ProcessState::Resumed)),
        ProcessLifecycle::Probing { record: record(ProcessState::Resumed) }
    );
}

#[test]
fn check_win32_fails_on_zero_only() {
    let error = WindowsError::last_error(5);
    assert_eq!(WindowsProcessService::check_win32(1, "Failed to create process: x", &error), Ok(()));
    assert_eq!(WindowsProcessService::check_win32(-1, "ignored", &error), Ok(()));
    assert_eq!(
        WindowsProcessService::check_win32(0, "Failed to get process exit code", &error),
        Err(ElevateError::Windows {
            kind: WindowsErrorKind::ProcessOperation,
            code: 5,
            context: "Failed to get process exit code".to_string(),
        })
    );
}

#[test]
fn lifecycle_failures_name_their_stage() {
    assert_eq!(LifecycleError::NotSuspended.message(), "Process is not suspended");
    assert_eq!(
        LifecycleError::ResumeFailed { code: 5 }.message(),
        "Failed to resume process thread (code: 5)"
    );
    assert_eq!(
        LifecycleError::WaitFailed { code: 6 }.message(),
        "Failed to get process exit code (code: 6)"
    );
    assert_eq!(
        LifecycleError::StatusUnavailable { code: 7 }.message(),
        "Failed to get process status (code: 7)"
    );
}
