use elevatekit::elevation::{Completion, Elevation, ElevationError};
use elevatekit::error::TiError;
use elevatekit::machine::{replay, Machine};
use elevatekit::privilege::{all_token_privileges, PrivilegeTally};
use elevatekit::process::{LifecycleError, ProcessCreationError};
use elevatekit::report::{exit_status, verdict};
use elevatekit::service::ServiceError;
use elevatekit::services::{
    ProcessManager, TrustedInstallerElevation, TrustedInstallerService, WindowsPrivilegeService,
};
use elevatekit::syscall::{Luid, Reply, SysCall};
use elevatekit::token::{SecurityContext, TokenError};

const LUID: Luid = Luid { low: 20, high: 0 };

fn run(command: &str, timeout: Option<u32>) -> Elevation {
    Elevation::begin(command.to_string(), all_token_privileges(), "TrustedInstaller".to_string(), timeout)
}

fn located() -> Vec<Reply> {
    vec![
        Reply::Handle { raw: 10 },
        Reply::Handle { raw: 11 },
        Reply::Failed { code: 1056 },
        Reply::Status { state: 4, pid: 500 },
        Reply::Done,
        Reply::Done,
    ]
}

fn created() -> Vec<Reply> {
    vec![
        Reply::Handle { raw: 20 },
        Reply::Size { bytes: 48 },
        Reply::Handle { raw: 4096 },
        Reply::Done,
        Reply::Done,
        Reply::Created { process: 30, thread: 31, pid: 1234, tid: 5678 },
        Reply::Done,
        Reply::Done,
        Reply::Done,
    ]
}

fn escalated() -> Vec<Reply> {
    let mut replies = vec![Reply::Handle { raw: 40 }];
    for i in 0..36 {
        if i % 3 == 0 {
            replies.push(Reply::Failed { code: 1313 });
        } else if i % 3 == 1 {
            replies.push(Reply::Resolved { luid: LUID });
            replies.push(Reply::Failed { code: 1300 });
        } else {
            replies.push(Reply::Resolved { luid: LUID });
            replies.push(Reply::Done);
        }
    }
    replies.push(Reply::Done);
    replies
}

fn whole_run(exit: u32) -> Vec<Reply> {
    let mut replies = located();
    replies.extend(created());
    replies.extend(escalated());
    replies.push(Reply::Done);
    replies.push(Reply::Signaled);
    replies.push(Reply::ExitCode { code: exit });
    replies.push(Reply::Done);
    replies.push(Reply::Done);
    replies
}

fn position(calls: &[SysCall], wanted: impl Fn(&SysCall) -> bool) -> Vec<usize> {
    calls.iter().enumerate().filter(|(_, c)| wanted(c)).map(|(i, _)| i).collect()
}

#[test]
fn command_runs_under_the_located_service_and_its_exit_code_comes_back() {
    let (end, calls) = replay(run("cmd.exe", None), &whole_run(3));
    assert_eq!(
        end.result(),
        Some(Ok(Completion {
            exit: Some(3),
            privileges: PrivilegeTally { enabled: 12, skipped: 12, failed: 12 },
        }))
    );
    assert_eq!(end.pending(), None);
    assert!(calls.contains(&SysCall::OpenProcess { access: 0x0080, pid: 500 }));
    assert!(calls.contains(&SysCall::SetParentProcess { list: 4096, parent: 20 }));
    assert!(calls.contains(&SysCall::CreateProcess {
        command_line: "cmd.exe".to_string(),
        flags: 0x0008_0014,
        attribute_list: 4096,
    }));
    assert!(calls.contains(&SysCall::OpenProcessToken { process: 30, access: 0x0028 }));
    assert!(calls.contains(&SysCall::WaitForExit { process: 30, timeout: None }));
    assert_eq!(calls.len(), whole_run(3).len());
}

#[test]
fn every_privilege_is_tried_before_the_process_is_resumed() {
    let (_, calls) = replay(run("cmd.exe", None), &whole_run(0));
    let resumes = position(&calls, |c| matches!(c, SysCall::ResumeThread { .. }));
    assert_eq!(resumes.len(), 1);
    assert_eq!(calls[resumes[0]], SysCall::ResumeThread { thread: 31 });
    let lookups = position(&calls, |c| matches!(c, SysCall::LookupPrivilegeValue { .. }));
    let adjusts = position(&calls, |c| matches!(c, SysCall::AdjustTokenPrivilege { .. }));
    assert_eq!(lookups.len(), 36);
    assert_eq!(adjusts.len(), 24);
    assert!(lookups.iter().all(|i| *i < resumes[0]));
    assert!(adjusts.iter().all(|i| *i < resumes[0]));
    let creation = position(&calls, |c| matches!(c, SysCall::CreateProcess { .. }));
    assert!(creation[0] < lookups[0]);
    let token_closed = position(&calls, |c| *c == SysCall::CloseHandle { handle: 40 });
    assert!(token_closed[0] < resumes[0]);
}

#[test]
fn every_handle_is_released_exactly_once() {
    let (_, calls) = replay(run("cmd.exe", None), &whole_run(0));
    for handle in [10usize, 11] {
        assert_eq!(position(&calls, |c| *c == SysCall::CloseServiceHandle { handle }).len(), 1);
    }
    for handle in [20usize, 30, 31, 40] {
        assert_eq!(position(&calls, |c| *c == SysCall::CloseHandle { handle }).len(), 1);
    }
    assert_eq!(position(&calls, |c| *c == SysCall::FreeAttributeList { list: 4096 }).len(), 1);
    let n = calls.len();
    assert_eq!(calls[n - 2], SysCall::CloseHandle { handle: 31 });
    assert_eq!(calls[n - 1], SysCall::CloseHandle { handle: 30 });
}

#[test]
fn blank_commands_are_refused_before_any_request() {
    for command in ["", " ", "   ", "\t", " \t\r\n ", "\u{00a0}\u{2003}"] {
        let (end, calls) = replay(run(command, None), &whole_run(0));
        assert_eq!(end.result(), Some(Err(ElevationError::EmptyCommand)));
        assert!(calls.is_empty());
        assert_eq!(run(command, None).pending(), None);
    }
    let service = TrustedInstallerService::new(WindowsPrivilegeService::new());
    assert_eq!(service.run_command("   ").result(), Some(Err(ElevationError::EmptyCommand)));
    assert_eq!(
        ElevationError::EmptyCommand.to_ti_error(),
        TiError::ProcessError("Command cannot be empty".to_string())
    );
}

#[test]
fn a_command_with_any_visible_character_is_not_blank() {
    for command in ["cmd.exe", " x ", "\t-", "."] {
        assert_eq!(run(command, None).pending(), Some(SysCall::OpenScManager { access: 1 }));
    }
}

#[test]
fn stuck_service_ends_the_run_without_creating_a_process() {
    let mut replies = vec![Reply::Handle { raw: 10 }, Reply::Handle { raw: 11 }, Reply::Done];
    for _ in 0..20 {
        replies.push(Reply::Status { state: 2, pid: 0 });
        replies.push(Reply::Done);
    }
    replies.push(Reply::Done);
    replies.push(Reply::Done);
    replies.extend(created());
    let (end, calls) = replay(run("cmd.exe", None), &replies);
    assert_eq!(end.result(), Some(Err(ElevationError::Service(ServiceError::ServiceStartTimeout))));
    assert_eq!(calls.len(), 45);
    assert!(!calls.iter().any(|c| matches!(c, SysCall::CreateProcess { .. } | SysCall::OpenProcess { .. })));
    assert_eq!(
        ElevationError::Service(ServiceError::ServiceStartTimeout).to_ti_error(),
        TiError::ServiceError("Timeout waiting for service to start".to_string())
    );
}

#[test]
fn failed_creation_ends_the_run() {
    let mut replies = located();
    replies.push(Reply::Failed { code: 5 });
    let (end, calls) = replay(run("cmd.exe", None), &replies);
    assert_eq!(
        end.result(),
        Some(Err(ElevationError::Creation(ProcessCreationError::OpenParentFailed { code: 5 })))
    );
    assert_eq!(calls.len(), 7);
    assert_eq!(
        ElevationError::Creation(ProcessCreationError::OpenParentFailed { code: 5 }).to_ti_error(),
        TiError::ProcessError("Failed to open TI process (code: 5)".to_string())
    );
}

#[test]
fn without_the_token_the_process_stays_suspended_and_its_handles_are_released() {
    let mut replies = located();
    replies.extend(created());
    replies.push(Reply::Failed { code: 5 });
    replies.push(Reply::Done);
    replies.push(Reply::Done);
    let (end, calls) = replay(run("cmd.exe", None), &replies);
    assert_eq!(
        end.result(),
        Some(Err(ElevationError::Token(TokenError::TokenAcquisitionFailed { code: 5 })))
    );
    assert!(!calls.iter().any(|c| matches!(c, SysCall::ResumeThread { .. })));
    let n = calls.len();
    assert_eq!(calls[n - 2], SysCall::CloseHandle { handle: 31 });
    assert_eq!(calls[n - 1], SysCall::CloseHandle { handle: 30 });
    assert_eq!(
        ElevationError::Token(TokenError::TokenAcquisitionFailed { code: 5 }).to_ti_error(),
        TiError::PrivilegeError("Failed to open process token (code: 5)".to_string())
    );
}

#[test]
fn failed_resume_is_fatal() {
    let mut replies = located();
    replies.extend(created());
    replies.extend(escalated());
    replies.push(Reply::Failed { code: 5 });
    replies.push(Reply::Done);
    replies.push(Reply::Done);
    let (end, calls) = replay(run("cmd.exe", None), &replies);
    assert_eq!(
        end.result(),
        Some(Err(ElevationError::Lifecycle(LifecycleError::ResumeFailed { code: 5 })))
    );
    assert!(!calls.iter().any(|c| matches!(c, SysCall::WaitForExit { .. })));
    assert_eq!(
        ElevationError::Lifecycle(LifecycleError::ResumeFailed { code: 5 }).to_ti_error(),
        TiError::ProcessError("Failed to resume process thread (code: 5)".to_string())
    );
}

#[test]
fn elapsed_wait_ends_the_run_without_an_exit_code() {
    let mut replies = located();
    replies.extend(created());
    replies.extend(escalated());
    replies.push(Reply::Done);
    replies.push(Reply::TimedOut);
    replies.push(Reply::Done);
    replies.push(Reply::Done);
    let (end, calls) = replay(run("cmd.exe", Some(0)), &replies);
    assert!(calls.contains(&SysCall::WaitForExit { process: 30, timeout: Some(0) }));
    assert!(!calls.iter().any(|c| matches!(c, SysCall::GetExitCode { .. })));
    let outcome = end.result().unwrap();
    assert_eq!(outcome.map(|done| done.exit), Ok(None));
    assert_eq!(exit_status(&outcome), 0);
    assert_eq!(verdict(&outcome), Ok(()));
}

#[test]
fn exit_status_is_the_commands_exit_code() {
    let tally = PrivilegeTally { enabled: 36, skipped: 0, failed: 0 };
    assert_eq!(exit_status(&Ok(Completion { exit: Some(0), privileges: tally })), 0);
    assert_eq!(exit_status(&Ok(Completion { exit: Some(3), privileges: tally })), 3);
    assert_eq!(exit_status(&Ok(Completion { exit: Some(0xC000_0005), privileges: tally })), -1073741819);
    assert_eq!(exit_status(&Ok(Completion { exit: Some(u32::MAX), privileges: tally })), -1);
    assert_eq!(exit_status(&Err(ElevationError::EmptyCommand)), 1);
    assert_eq!(exit_status(&Err(ElevationError::Service(ServiceError::ServiceStartTimeout))), 1);
}

#[test]
fn a_command_that_fails_makes_the_run_fail() {
    let service = TrustedInstallerService::new(WindowsPrivilegeService::new());
    let (end, _) = replay(service.run_command("cmd.exe /c exit 3"), &whole_run(3));
    let outcome = end.result().unwrap();
    assert_eq!(
        service.execute_and_wait(&outcome),
        Err(TiError::ProcessError("Process exited with code 3".to_string()))
    );
    let (end, _) = replay(service.run_command("cmd.exe"), &whole_run(0));
    assert_eq!(service.execute_and_wait(&end.result().unwrap()), Ok(()));
    assert_eq!(
        service.execute_and_wait(&Err(ElevationError::Service(ServiceError::AccessDenied { code: 5 }))),
        Err(TiError::ServiceError("Failed to open service control manager (code: 5)".to_string()))
    );
}

#[test]
fn execute_joins_command_and_arguments_with_spaces() {
    let context = SecurityContext::new();
    let elevation = TrustedInstallerElevation::new(&context).with_timeout(Some(1500));
    let args = vec!["/c".to_string(), "echo hi".to_string()];
    let (_, calls) = replay(elevation.execute("cmd.exe", &args), &whole_run(0));
    assert!(calls.contains(&SysCall::CreateProcess {
        command_line: "cmd.exe /c echo hi".to_string(),
        flags: 0x0008_0014,
        attribute_list: 4096,
    }));
    assert!(calls.contains(&SysCall::WaitForExit { process: 30, timeout: Some(1500) }));
    assert_eq!(calls[1], SysCall::OpenService { manager: 10, name: "TrustedInstaller".to_string(), access: 0x14 });
}

#[test]
fn execute_without_arguments_runs_the_bare_command() {
    let context = SecurityContext::new();
    let elevation = TrustedInstallerElevation::new(&context);
    let (_, calls) = replay(elevation.execute("cmd.exe", &Vec::new()), &whole_run(0));
    assert!(calls.contains(&SysCall::CreateProcess {
        command_line: "cmd.exe".to_string(),
        flags: 0x0008_0014,
        attribute_list: 4096,
    }));
    assert!(calls.contains(&SysCall::WaitForExit { process: 30, timeout: None }));
}

#[test]
fn manager_runs_a_command_through_the_whole_pipeline() {
    let manager = ProcessManager::new();
    let (end, calls) = replay(manager.execute_process("whoami.exe"), &whole_run(0));
    assert_eq!(end.result().unwrap().map(|done| done.exit), Ok(Some(0)));
    assert_eq!(position(&calls, |c| matches!(c, SysCall::LookupPrivilegeValue { .. })).len(), 36);
}

#[test]
fn unfinished_run_has_no_result() {
    let (end, _) = replay(run("cmd.exe", None), &located());
    assert_eq!(end.result(), None);
    assert!(matches!(end, Elevation::Creating { .. }));
}

#[test]
fn a_run_told_that_its_command_is_blank_is_over_at_once() {
    let refused = Elevation::begin_checked(
        true,
        "cmd.exe".to_string(),
        all_token_privileges(),
        "TrustedInstaller".to_string(),
        None,
    );
    assert_eq!(refused, Elevation::Finished { outcome: Err(ElevationError::EmptyCommand) });
    let accepted =
        Elevation::begin_checked(false, "".to_string(), Vec::new(), "TrustedInstaller".to_string(), Some(5));
    assert_eq!(accepted.pending(), Some(SysCall::OpenScManager { access: 1 }));
    assert!(matches!(accepted, Elevation::Locating { timeout: Some(5), .. }));
}
