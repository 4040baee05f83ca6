use elevatekit::handle::{HandleGuard, HandleKind};
use elevatekit::machine::{replay, Machine};
use elevatekit::process::ElevatedProcessFactory;
use elevatekit::service::{ServiceError, ServiceLocator};
use elevatekit::syscall::{Reply, SysCall};

fn released(call: &SysCall) -> Option<usize> {
    match call {
        SysCall::CloseServiceHandle { handle } => Some(*handle),
        SysCall::CloseHandle { handle } => Some(*handle),
        SysCall::FreeAttributeList { list } => Some(*list),
        _ => None,
    }
}

#[test]
fn guard_releases_by_kind() {
    assert_eq!(
        HandleGuard::new(7, HandleKind::Service).release(),
        Some(SysCall::CloseServiceHandle { handle: 7 })
    );
    assert_eq!(
        HandleGuard::new(8, HandleKind::Object).release(),
        Some(SysCall::CloseHandle { handle: 8 })
    );
    assert_eq!(
        HandleGuard::new(9, HandleKind::AttributeList).release(),
        Some(SysCall::FreeAttributeList { list: 9 })
    );
    assert_eq!(
        HandleGuard::new(9, HandleKind::AttributeList).closing_call(),
        SysCall::FreeAttributeList { list: 9 }
    );
}

#[test]
fn null_guard_needs_no_release() {
    let guard = HandleGuard::new(0, HandleKind::Object);
    assert!(guard.is_null());
    assert_eq!(guard.release(), None);
    assert!(!HandleGuard::new(1, HandleKind::Object).is_null());
}

#[test]
fn answers_are_read_as_handles_codes_and_successes() {
    assert_eq!(Reply::Handle { raw: 5 }.handle(), Some(5));
    assert_eq!(Reply::Handle { raw: 0 }.handle(), None);
    assert_eq!(Reply::Done.handle(), None);
    assert_eq!(Reply::Failed { code: 5 }.handle(), None);
    assert_eq!(Reply::Failed { code: 5 }.error_code(), 5);
    assert_eq!(Reply::Done.error_code(), 0);
    assert_eq!(Reply::Size { bytes: 3 }.error_code(), 0);
    assert!(Reply::Done.is_done());
    assert!(!Reply::Signaled.is_done());
    assert!(!Reply::Failed { code: 0 }.is_done());
}

#[test]
fn locator_releases_what_it_opened_on_every_path() {
    let paths: Vec<Vec<Reply>> = vec![
        vec![Reply::Failed { code: 5 }],
        vec![Reply::Handle { raw: 1 }, Reply::Failed { code: 5 }, Reply::Done],
        vec![Reply::Handle { raw: 1 }, Reply::Handle { raw: 2 }, Reply::Failed { code: 5 }, Reply::Done, Reply::Done],
        vec![
            Reply::Handle { raw: 1 },
            Reply::Handle { raw: 2 },
            Reply::Done,
            Reply::Status { state: 7, pid: 0 },
            Reply::Done,
            Reply::Done,
        ],
        vec![
            Reply::Handle { raw: 1 },
            Reply::Handle { raw: 2 },
            Reply::Done,
            Reply::Status { state: 4, pid: 9 },
            Reply::Done,
            Reply::Done,
        ],
    ];
    for replies in paths {
        let opened: Vec<usize> = replies.iter().take(2).filter_map(|r| r.handle()).collect();
        let (end, calls) = replay(ServiceLocator::locate_and_start("svc".to_string()), &replies);
        assert!(end.result().is_some());
        let mut closed: Vec<usize> = calls.iter().filter_map(released).collect();
        closed.sort();
        assert_eq!(closed, opened);
    }
}

#[test]
fn same_handle_value_twice_is_released_twice() {
    let replies = vec![
        Reply::Handle { raw: 5 },
        Reply::Handle { raw: 5 },
        Reply::Failed { code: 1 },
        Reply::Done,
        Reply::Done,
    ];
    let (end, calls) = replay(ServiceLocator::locate_and_start("svc".to_string()), &replies);
    assert_eq!(end.result(), Some(Err(ServiceError::ServiceStartFailed { code: 1 })));
    assert_eq!(calls.iter().filter_map(released).collect::<Vec<_>>(), vec![5, 5]);
}

#[test]
fn replay_stops_issuing_requests_when_the_machine_has_finished() {
    let machine = ElevatedProcessFactory::create_with_parent(1, "x".to_string());
    let (end, calls) = replay(machine, &vec![Reply::Failed { code: 5 }, Reply::Done, Reply::Done]);
    assert_eq!(calls.len(), 1);
    assert_eq!(end.pending(), None);
    let (unchanged, none) = replay(ElevatedProcessFactory::create_with_parent(1, "x".to_string()), &Vec::new());
    assert!(none.is_empty());
    assert_eq!(unchanged, ElevatedProcessFactory::create_with_parent(1, "x".to_string()));
}
