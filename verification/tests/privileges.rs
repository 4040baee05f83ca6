use elevatekit::error::{TiError, TokenErrorKind, ElevateError};
use elevatekit::machine::{replay, Machine};
use elevatekit::models::{PrivilegeInfo, TokenHandle};
use elevatekit::privilege::{
    all_token_privileges, privilege_name, PrivilegeChange, PrivilegeError, PrivilegeOutcome,
    PrivilegeSweep, PrivilegeTally,
};
use elevatekit::services::{PrivilegeManager, PrivilegeService, WindowsPrivilegeService};
use elevatekit::syscall::{Luid, Reply, SysCall};
use elevatekit::token::{
    ProcessEscalation, SecurityContext, SelfElevationError, ThreadPrivilege, TokenError,
    TokenManager, CURRENT_PROCESS,
};

const LUID: Luid = Luid { low: 20, high: 0 };

fn names(list: &[&str]) -> Vec<String> {
    list.iter().map(|s| s.to_string()).collect()
}

#[test]
fn table_has_thirty_six_names_in_a_fixed_order() {
    let table = all_token_privileges();
    assert_eq!(table.len(), 36);
    assert_eq!(elevatekit::constants::MAX_PRIVILEGES, 36);
    assert_eq!(table[0], "SeAssignPrimaryTokenPrivilege");
    assert_eq!(table[9], "SeDebugPrivilege");
    assert_eq!(table[10], "SeDelegateSessionUserImpersonatePrivilege");
    assert_eq!(table[35], "SeUnsolicitedInputPrivilege");
    for (i, name) in table.iter().enumerate() {
        assert_eq!(name, privilege_name(i));
    }
    assert_eq!(all_token_privileges(), table);
}

#[test]
fn enable_looks_the_name_up_and_adjusts_the_token() {
    let machine = PrivilegeChange::enable(40, "SeDebugPrivilege".to_string());
    let (end, calls) = replay(machine, &vec![Reply::Resolved { luid: LUID }, Reply::Done]);
    assert_eq!(
        calls,
        vec![
            SysCall::LookupPrivilegeValue { name: "SeDebugPrivilege".to_string() },
            SysCall::AdjustTokenPrivilege { token: 40, luid: LUID, attributes: 2 },
        ]
    );
    assert_eq!(end.into_result(), Some(Ok(PrivilegeOutcome::Applied)));
}

#[test]
fn disable_adjusts_with_no_attributes() {
    let manager = PrivilegeManager::new(40);
    let (end, calls) = replay(manager.disable("SeBackupPrivilege"), &vec![Reply::Resolved { luid: LUID }, Reply::Done]);
    assert_eq!(calls[1], SysCall::AdjustTokenPrivilege { token: 40, luid: LUID, attributes: 0 });
    assert_eq!(end.into_result(), Some(Ok(PrivilegeOutcome::Applied)));
    assert_eq!(
        manager.enable("SeBackupPrivilege"),
        PrivilegeChange::LookingUp { token: 40, name: "SeBackupPrivilege".to_string(), enable: true }
    );
}

#[test]
fn privilege_that_does_not_exist_is_a_no_op_success() {
    let machine = PrivilegeChange::enable(40, "SeNotARealPrivilege".to_string());
    let (end, calls) = replay(machine, &vec![Reply::Failed { code: 1313 }]);
    assert_eq!(calls, vec![SysCall::LookupPrivilegeValue { name: "SeNotARealPrivilege".to_string() }]);
    assert_eq!(end.pending(), None);
    assert_eq!(end.into_result(), Some(Ok(PrivilegeOutcome::Skipped)));
}

#[test]
fn other_lookup_failure_names_the_privilege() {
    let end = PrivilegeChange::enable(40, "SeDebugPrivilege".to_string()).advance(Reply::Failed { code: 5 });
    assert_eq!(
        end.into_result(),
        Some(Err(PrivilegeError::LookupFailed { name: "SeDebugPrivilege".to_string(), code: 5 }))
    );
}

#[test]
fn failed_adjustment_names_the_privilege() {
    let (end, _) = replay(
        PrivilegeChange::enable(40, "SeTcbPrivilege".to_string()),
        &vec![Reply::Resolved { luid: LUID }, Reply::Failed { code: 1300 }],
    );
    let failure = PrivilegeError::AdjustFailed { name: "SeTcbPrivilege".to_string(), code: 1300 };
    assert_eq!(failure.message(), "Failed to adjust privilege: SeTcbPrivilege (code: 1300)");
    assert_eq!(
        failure.to_ti_error(),
        TiError::PrivilegeError("Failed to adjust privilege: SeTcbPrivilege (code: 1300)".to_string())
    );
    assert_eq!(end.into_result(), Some(Err(failure)));
    assert_eq!(
        PrivilegeError::LookupFailed { name: "SeX".to_string(), code: 5 }.message(),
        "Failed to lookup privilege: SeX (code: 5)"
    );
}

#[test]
fn sweep_goes_on_after_each_failure() {
    let list = names(&["SeA", "SeB", "SeC", "SeD"]);
    let replies = vec![
        Reply::Resolved { luid: LUID },
        Reply::Done,
        Reply::Failed { code: 1313 },
        Reply::Failed { code: 5 },
        Reply::Resolved { luid: LUID },
        Reply::Failed { code: 1300 },
    ];
    let (end, calls) = replay(PrivilegeSweep::enable_all_known(40, list), &replies);
    assert_eq!(
        calls,
        vec![
            SysCall::LookupPrivilegeValue { name: "SeA".to_string() },
            SysCall::AdjustTokenPrivilege { token: 40, luid: LUID, attributes: 2 },
            SysCall::LookupPrivilegeValue { name: "SeB".to_string() },
            SysCall::LookupPrivilegeValue { name: "SeC".to_string() },
            SysCall::LookupPrivilegeValue { name: "SeD".to_string() },
            SysCall::AdjustTokenPrivilege { token: 40, luid: LUID, attributes: 2 },
        ]
    );
    assert!(end.is_finished());
    assert_eq!(end.tally(), PrivilegeTally { enabled: 1, skipped: 1, failed: 2 });
    assert_eq!(
        end.last_outcome(),
        &Some(Err(PrivilegeError::AdjustFailed { name: "SeD".to_string(), code: 1300 }))
    );
}

#[test]
fn sweep_reports_each_outcome_as_it_is_settled() {
    let list = names(&["SeA", "SeB"]);
    let machine = PrivilegeSweep::enable_all_known(40, list);
    assert_eq!(machine.last_outcome(), &None);
    let machine = machine.advance(Reply::Resolved { luid: LUID });
    assert_eq!(machine.last_outcome(), &None);
    let machine = machine.advance(Reply::Done);
    assert_eq!(machine.last_outcome(), &Some(Ok(PrivilegeOutcome::Applied)));
    let machine = machine.advance(Reply::Failed { code: 1313 });
    assert_eq!(machine.last_outcome(), &Some(Ok(PrivilegeOutcome::Skipped)));
    assert!(machine.is_finished());
}

#[test]
fn sweep_of_the_whole_table_survives_every_lookup_failing() {
    let replies: Vec<Reply> = (0..36).map(|_| Reply::Failed { code: 5 }).collect();
    let (end, calls) = replay(PrivilegeSweep::enable_all_known(40, all_token_privileges()), &replies);
    assert!(end.is_finished());
    assert_eq!(end.tally(), PrivilegeTally { enabled: 0, skipped: 0, failed: 36 });
    assert_eq!(calls.len(), 36);
    for (i, call) in calls.iter().enumerate() {
        assert_eq!(call, &SysCall::LookupPrivilegeValue { name: privilege_name(i).to_string() });
    }
}

#[test]
fn sweep_of_the_whole_table_enables_all_when_nothing_fails() {
    let mut replies = Vec::new();
    for _ in 0..36 {
        replies.push(Reply::Resolved { luid: LUID });
        replies.push(Reply::Done);
    }
    let service = WindowsPrivilegeService::new();
    let (end, calls) = replay(service.set_all_privileges(TokenHandle(40)), &replies);
    assert_eq!(end.tally(), PrivilegeTally { enabled: 36, skipped: 0, failed: 0 });
    assert_eq!(calls.len(), 72);
    assert!(end.is_finished());
}

#[test]
fn sweep_of_an_empty_list_is_over_at_once() {
    let machine = PrivilegeSweep::enable_all_known(40, Vec::new());
    assert!(machine.is_finished());
    assert_eq!(machine.pending(), None);
    assert_eq!(machine.tally(), PrivilegeTally { enabled: 0, skipped: 0, failed: 0 });
}

#[test]
fn tally_counts_by_outcome() {
    let zero = PrivilegeTally { enabled: 0, skipped: 0, failed: 0 };
    assert_eq!(zero.record(&Ok(PrivilegeOutcome::Applied)), PrivilegeTally { enabled: 1, skipped: 0, failed: 0 });
    assert_eq!(zero.record(&Ok(PrivilegeOutcome::Skipped)), PrivilegeTally { enabled: 0, skipped: 1, failed: 0 });
    let failure = Err(PrivilegeError::LookupFailed { name: "SeA".to_string(), code: 5 });
    assert_eq!(zero.record(&failure), PrivilegeTally { enabled: 0, skipped: 0, failed: 1 });
    let full = PrivilegeTally { enabled: usize::MAX, skipped: 0, failed: 0 };
    assert_eq!(full.record(&Ok(PrivilegeOutcome::Applied)), full);
}

#[test]
fn escalation_opens_the_token_sweeps_and_releases_it() {
    let list = names(&["SeA", "SeB"]);
    let replies = vec![
        Reply::Handle { raw: 40 },
        Reply::Resolved { luid: LUID },
        Reply::Done,
        Reply::Failed { code: 5 },
        Reply::Done,
    ];
    let (end, calls) = replay(ProcessEscalation::set_all_privileges(30, list), &replies);
    assert_eq!(calls[0], SysCall::OpenProcessToken { process: 30, access: 0x0028 });
    assert_eq!(calls[4], SysCall::CloseHandle { handle: 40 });
    assert_eq!(end.result(), Some(Ok(PrivilegeTally { enabled: 1, skipped: 0, failed: 1 })));
}

#[test]
fn escalation_fails_only_when_the_token_cannot_be_had() {
    let (end, calls) = replay(
        ProcessEscalation::set_all_privileges(30, all_token_privileges()),
        &vec![Reply::Failed { code: 5 }],
    );
    assert_eq!(end.result(), Some(Err(TokenError::TokenAcquisitionFailed { code: 5 })));
    assert_eq!(calls.len(), 1);
    assert_eq!(TokenError::TokenAcquisitionFailed { code: 5 }.message(), "Failed to open process token (code: 5)");

    let mut replies = vec![Reply::Handle { raw: 40 }];
    replies.extend((0..36).map(|_| Reply::Failed { code: 5 }));
    replies.push(Reply::Done);
    let context = SecurityContext::new();
    let (end, _) = replay(context.set_all_privileges(30), &replies);
    assert_eq!(end.result(), Some(Ok(PrivilegeTally { enabled: 0, skipped: 0, failed: 36 })));
}

#[test]
fn escalation_of_an_empty_list_only_opens_and_releases_the_token() {
    let (end, calls) =
        replay(ProcessEscalation::set_all_privileges(30, Vec::new()), &vec![Reply::Handle { raw: 40 }, Reply::Done]);
    assert_eq!(
        calls,
        vec![
            SysCall::OpenProcessToken { process: 30, access: 0x0028 },
            SysCall::CloseHandle { handle: 40 }
        ]
    );
    assert_eq!(end.result(), Some(Ok(PrivilegeTally { enabled: 0, skipped: 0, failed: 0 })));
}

#[test]
fn thread_token_is_opened_after_impersonation() {
    let service = WindowsPrivilegeService::new();
    let replies = vec![
        Reply::Done,
        Reply::Handle { raw: 50 },
        Reply::Resolved { luid: LUID },
        Reply::Done,
        Reply::Done,
    ];
    let (end, calls) = replay(service.enable_debug_privilege(), &replies);
    assert_eq!(
        calls,
        vec![
            SysCall::ImpersonateSelf,
            SysCall::OpenThreadToken { access: 0x0028 },
            SysCall::LookupPrivilegeValue { name: "SeDebugPrivilege".to_string() },
            SysCall::AdjustTokenPrivilege { token: 50, luid: LUID, attributes: 2 },
            SysCall::CloseHandle { handle: 50 },
        ]
    );
    assert_eq!(end.into_result(), Some(Ok(PrivilegeOutcome::Applied)));
}

#[test]
fn failed_impersonation_is_a_token_acquisition_failure() {
    let (end, calls) = replay(ThreadPrivilege::set_privilege("SeDebugPrivilege".to_string()), &vec![Reply::Failed { code: 5 }]);
    assert_eq!(calls, vec![SysCall::ImpersonateSelf]);
    let failure = SelfElevationError::Token(TokenError::TokenAcquisitionFailed { code: 5 });
    assert_eq!(
        failure.to_ti_error(),
        TiError::PrivilegeError("Failed to open thread token (code: 5)".to_string())
    );
    assert_eq!(end.into_result(), Some(Err(failure)));
}

#[test]
fn missing_thread_token_is_a_token_acquisition_failure() {
    let service = WindowsPrivilegeService::new();
    let (end, calls) = replay(service.set_privilege("SeBackupPrivilege"), &vec![Reply::Done, Reply::Failed { code: 1008 }]);
    assert_eq!(calls.len(), 2);
    assert_eq!(
        end.into_result(),
        Some(Err(SelfElevationError::Token(TokenError::TokenAcquisitionFailed { code: 1008 })))
    );
}

#[test]
fn failed_privilege_on_the_thread_still_releases_the_token() {
    let replies = vec![Reply::Done, Reply::Handle { raw: 50 }, Reply::Failed { code: 5 }, Reply::Done];
    let (end, calls) = replay(SecurityContext::new(), &replies);
    assert_eq!(calls[3], SysCall::CloseHandle { handle: 50 });
    let failure = PrivilegeError::LookupFailed { name: "SeDebugPrivilege".to_string(), code: 5 };
    assert_eq!(
        SelfElevationError::Privilege(PrivilegeError::LookupFailed { name: "SeDebugPrivilege".to_string(), code: 5 })
            .to_ti_error(),
        TiError::PrivilegeError("Failed to lookup privilege: SeDebugPrivilege (code: 5)".to_string())
    );
    assert_eq!(end.setup.into_result(), Some(Err(SelfElevationError::Privilege(failure))));
}

#[test]
fn test_privilege_service() {
    let service = WindowsPrivilegeService::new();

    let lookups: Vec<Reply> = (0..36).map(|_| Reply::Resolved { luid: LUID }).collect();
    let privileges = service.get_privileges(Reply::Handle { raw: 50 }, &lookups).unwrap();
    assert!(!privileges.is_empty());

    let replies = vec![
        Reply::Done,
        Reply::Handle { raw: 50 },
        Reply::Resolved { luid: LUID },
        Reply::Done,
        Reply::Done,
    ];
    let (end, _) = replay(service.enable_debug_privilege(), &replies);
    assert!(end.into_result().unwrap().is_ok());
}

#[test]
fn privileges_are_listed_with_what_the_lookups_found() {
    let service = WindowsPrivilegeService::new();
    let mut lookups: Vec<Reply> = (0..36).map(|_| Reply::Resolved { luid: LUID }).collect();
    lookups[2] = Reply::Failed { code: 1313 };
    lookups.truncate(35);
    let list = service.get_privileges(Reply::Handle { raw: 50 }, &lookups).unwrap();
    assert_eq!(list.len(), 36);
    assert_eq!(
        list[0],
        PrivilegeInfo { name: "SeAssignPrimaryTokenPrivilege".to_string(), enabled: true, description: None }
    );
    assert_eq!(
        list[2],
        PrivilegeInfo { name: "SeBackupPrivilege".to_string(), enabled: false, description: None }
    );
    assert_eq!(
        list[35],
        PrivilegeInfo { name: "SeUnsolicitedInputPrivilege".to_string(), enabled: false, description: None }
    );
    assert_eq!(list[9].clone(), list[9]);
}

#[test]
fn no_thread_token_means_no_privilege_list() {
    let service = WindowsPrivilegeService::new();
    assert_eq!(
        service.get_privileges(Reply::Failed { code: 5 }, &Vec::new()),
        Err(TiError::PrivilegeError("Failed to open thread token".to_string()))
    );
}

#[test]
fn process_token_is_requested_for_the_calling_process() {
    assert_eq!(
        TokenManager::request(),
        SysCall::OpenProcessToken { process: CURRENT_PROCESS, access: 0x0028 }
    );
    assert_eq!(CURRENT_PROCESS, usize::MAX);
    let manager = TokenManager::new(Reply::Handle { raw: 60 }).unwrap();
    assert_eq!(manager.handle.raw, 60);
    assert_eq!(manager.release(), Some(SysCall::CloseHandle { handle: 60 }));
    assert_eq!(
        TokenManager::new(Reply::Failed { code: 5 }),
        Err(ElevateError::TokenError { kind: TokenErrorKind::OpenProcessToken })
    );
    assert_eq!(
        TokenManager::new(Reply::Handle { raw: 0 }),
        Err(ElevateError::TokenError { kind: TokenErrorKind::OpenProcessToken })
    );
}
