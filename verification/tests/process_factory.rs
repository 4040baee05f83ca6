use elevatekit::handle::{HandleGuard, HandleKind};
use elevatekit::machine::{replay, Machine};
use elevatekit::models::{ProcessInfo, ProcessState};
use elevatekit::process::{ElevatedProcessFactory, ProcessCreationError};
use elevatekit::services::{ProcessManager, ProcessService, WindowsProcessService};
use elevatekit::syscall::{Reply, SysCall};

fn creation_replies() -> Vec<Reply> {
    vec![
        Reply::Handle { raw: 20 },
        Reply::Size { bytes: 48 },
        Reply::Handle { raw: 4096 },
        Reply::Done,
        Reply::Done,
        Reply::Created { process: 30, thread: 31, pid: 1234, tid: 5678 },
        Reply::Done,
        Reply::Done,
        Reply::Done,
    ]
}

fn factory(command: &str) -> ElevatedProcessFactory {
    ElevatedProcessFactory::create_with_parent(500, command.to_string())
}

fn suspended_record() -> ProcessInfo {
    ProcessInfo {
        handle: HandleGuard { raw: 30, kind: HandleKind::Object },
        thread_handle: HandleGuard { raw: 31, kind: HandleKind::Object },
        process_id: 1234,
        thread_id: 5678,
        state: ProcessState::Suspended,
    }
}

#[test]
fn process_is_created_suspended_under_the_given_parent() {
    let (end, calls) = replay(factory("cmd.exe"), &creation_replies());
    assert_eq!(
        calls,
        vec![
            SysCall::OpenProcess { access: 0x0080, pid: 500 },
            SysCall::AttributeListSize { attributes: 1 },
            SysCall::AllocateAttributeList { bytes: 48 },
            SysCall::InitializeAttributeList { list: 4096, attributes: 1, bytes: 48 },
            SysCall::SetParentProcess { list: 4096, parent: 20 },
            SysCall::CreateProcess {
                command_line: "cmd.exe".to_string(),
                flags: 0x0008_0014,
                attribute_list: 4096,
            },
            SysCall::DeleteAttributeList { list: 4096 },
            SysCall::FreeAttributeList { list: 4096 },
            SysCall::CloseHandle { handle: 20 },
        ]
    );
    assert_eq!(end.into_result(), Some(Ok(suspended_record())));
}

#[test]
fn creation_flags_hold_suspended_extended_and_new_console() {
    assert_eq!(elevatekit::constants::ELEVATED_CREATION_FLAGS, 0x4 | 0x0008_0000 | 0x10);
    assert_eq!(
        elevatekit::constants::ELEVATED_CREATION_FLAGS & elevatekit::constants::CREATE_SUSPENDED,
        elevatekit::constants::CREATE_SUSPENDED
    );
}

#[test]
fn factory_never_asks_to_resume() {
    for command in ["cmd.exe", "", "a b c", "powershell.exe -NoProfile"] {
        let (_, calls) = replay(factory(command), &creation_replies());
        assert!(!calls.iter().any(|c| matches!(c, SysCall::ResumeThread { .. })));
        assert_eq!(calls.len(), 9);
    }
}

#[test]
fn command_line_is_not_escaped() {
    let command = "cmd.exe /c \"echo a & echo b\"";
    let (_, calls) = replay(factory(command), &creation_replies());
    match &calls[5] {
        SysCall::CreateProcess { command_line, .. } => assert_eq!(command_line, command),
        other => panic!("unexpected request {:?}", other),
    }
}

#[test]
fn parent_that_cannot_be_opened_ends_the_factory_at_once() {
    let (end, calls) = replay(factory("cmd.exe"), &vec![Reply::Failed { code: 5 }]);
    assert_eq!(end.pending(), None);
    assert_eq!(calls.len(), 1);
    assert_eq!(end.into_result(), Some(Err(ProcessCreationError::OpenParentFailed { code: 5 })));
}

#[test]
fn unknown_list_size_releases_the_parent() {
    let replies = vec![Reply::Handle { raw: 20 }, Reply::Size { bytes: 0 }, Reply::Done];
    let (end, calls) = replay(factory("cmd.exe"), &replies);
    assert_eq!(calls.last(), Some(&SysCall::CloseHandle { handle: 20 }));
    assert_eq!(end.into_result(), Some(Err(ProcessCreationError::AttributeListError { code: 0 })));
}

#[test]
fn failed_allocation_releases_the_parent() {
    let replies =
        vec![Reply::Handle { raw: 20 }, Reply::Size { bytes: 48 }, Reply::Failed { code: 8 }, Reply::Done];
    let (end, calls) = replay(factory("cmd.exe"), &replies);
    assert_eq!(calls.len(), 4);
    assert_eq!(calls[3], SysCall::CloseHandle { handle: 20 });
    assert_eq!(end.into_result(), Some(Err(ProcessCreationError::AttributeListError { code: 8 })));
}

#[test]
fn failed_initialization_frees_the_list_without_tearing_it_down() {
    let replies = vec![
        Reply::Handle { raw: 20 },
        Reply::Size { bytes: 48 },
        Reply::Handle { raw: 4096 },
        Reply::Failed { code: 87 },
        Reply::Done,
        Reply::Done,
    ];
    let (end, calls) = replay(factory("cmd.exe"), &replies);
    assert_eq!(
        &calls[4..],
        &[SysCall::FreeAttributeList { list: 4096 }, SysCall::CloseHandle { handle: 20 }]
    );
    assert_eq!(end.into_result(), Some(Err(ProcessCreationError::AttributeListError { code: 87 })));
}

#[test]
fn failed_parent_attribute_tears_down_and_frees_the_list() {
    let replies = vec![
        Reply::Handle { raw: 20 },
        Reply::Size { bytes: 48 },
        Reply::Handle { raw: 4096 },
        Reply::Done,
        Reply::Failed { code: 87 },
        Reply::Done,
        Reply::Done,
        Reply::Done,
    ];
    let (end, calls) = replay(factory("cmd.exe"), &replies);
    assert_eq!(
        &calls[5..],
        &[
            SysCall::DeleteAttributeList { list: 4096 },
            SysCall::FreeAttributeList { list: 4096 },
            SysCall::CloseHandle { handle: 20 }
        ]
    );
    assert!(!calls.iter().any(|c| matches!(c, SysCall::CreateProcess { .. })));
    assert_eq!(end.into_result(), Some(Err(ProcessCreationError::AttributeListError { code: 87 })));
}

#[test]
fn failed_creation_carries_the_error_code_and_still_cleans_up() {
    let mut replies = creation_replies();
    replies[5] = Reply::Failed { code: 2 };
    let (end, calls) = replay(factory("nosuch.exe"), &replies);
    assert_eq!(calls.len(), 9);
    assert_eq!(calls[7], SysCall::FreeAttributeList { list: 4096 });
    assert_eq!(calls[8], SysCall::CloseHandle { handle: 20 });
    assert_eq!(end.into_result(), Some(Err(ProcessCreationError::ProcessCreationFailed { code: 2 })));
}

#[test]
fn new_process_handles_are_not_released_by_the_factory() {
    let (_, calls) = replay(factory("cmd.exe"), &creation_replies());
    assert!(!calls.contains(&SysCall::CloseHandle { handle: 30 }));
    assert!(!calls.contains(&SysCall::CloseHandle { handle: 31 }));
}

#[test]
fn unfinished_factory_has_no_result() {
    let (end, _) = replay(factory("cmd.exe"), &vec![Reply::Handle { raw: 20 }]);
    assert_eq!(end.into_result(), None);
}

#[test]
fn plain_creation_is_one_request() {
    let service = WindowsProcessService::new();
    let machine = service.create_process("notepad.exe");
    assert_eq!(
        machine.pending(),
        Some(SysCall::CreateProcess {
            command_line: "notepad.exe".to_string(),
            flags: 0x4,
            attribute_list: 0
        })
    );
    let end = machine.advance(Reply::Created { process: 30, thread: 31, pid: 1234, tid: 5678 });
    assert_eq!(end.pending(), None);
    assert_eq!(end.into_result(), Some(Ok(suspended_record())));
}

#[test]
fn manager_creates_suspended_processes() {
    let manager = ProcessManager::new();
    let machine = manager.create_suspended_process("notepad.exe");
    let end = machine.advance(Reply::Failed { code: 2 });
    assert_eq!(end.into_result(), Some(Err(ProcessCreationError::ProcessCreationFailed { code: 2 })));
}

#[test]
fn record_reports_its_identifiers() {
    let record = suspended_record();
    assert_eq!(record.process_id(), 1234);
    assert_eq!(record.thread_id(), 5678);
    assert_eq!(ProcessInfo::new_suspended(30, 31, 1234, 5678), record);
}

#[test]
fn creation_failures_name_their_stage() {
    assert_eq!(
        ProcessCreationError::OpenParentFailed { code: 5 }.message(),
        "Failed to open TI process (code: 5)"
    );
    assert_eq!(
        ProcessCreationError::AttributeListError { code: 8 }.message(),
        "Failed to allocate attribute list (code: 8)"
    );
    assert_eq!(
        ProcessCreationError::ProcessCreationFailed { code: 2 }.message(),
        "Failed to create process (code: 2)"
    );
}
