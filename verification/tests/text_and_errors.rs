use elevatekit::error::{
    ElevateError, PrivilegeErrorKind, TiError, TokenErrorKind, WindowsError, WindowsErrorKind,
};
use elevatekit::text::{decimal_text, is_blank, join_spaced, signed_decimal_text};

#[test]
fn empty_and_white_space_texts_are_blank() {
    assert!(is_blank(""));
    assert!(is_blank(" "));
    assert!(is_blank("\t\n\r "));
    assert!(is_blank("\u{3000}"));
    assert!(!is_blank("cmd.exe"));
    assert!(!is_blank("  a"));
    assert!(!is_blank("a  "));
    assert!(!is_blank("é"));
}

#[test]
fn words_are_joined_by_single_spaces() {
    assert_eq!(join_spaced(&Vec::new()), "");
    assert_eq!(join_spaced(&vec!["cmd.exe".to_string()]), "cmd.exe");
    assert_eq!(
        join_spaced(&vec!["cmd.exe".to_string(), "/c".to_string(), "dir".to_string()]),
        "cmd.exe /c dir"
    );
    assert_eq!(join_spaced(&vec!["a b".to_string(), "".to_string(), "c".to_string()]), "a b  c");
    assert_eq!(join_spaced(&vec!["é".to_string(), "ü".to_string()]), "é ü");
}

#[test]
fn numbers_are_written_in_decimal() {
    assert_eq!(decimal_text(0), "0");
    assert_eq!(decimal_text(9), "9");
    assert_eq!(decimal_text(10), "10");
    assert_eq!(decimal_text(1056), "1056");
    assert_eq!(decimal_text(1234567890), "1234567890");
    assert_eq!(decimal_text(u32::MAX), "4294967295");
    assert_eq!(signed_decimal_text(0), "0");
    assert_eq!(signed_decimal_text(5), "5");
    assert_eq!(signed_decimal_text(-1), "-1");
    assert_eq!(signed_decimal_text(-1073741819), "-1073741819");
    assert_eq!(signed_decimal_text(i32::MAX), "2147483647");
    assert_eq!(signed_decimal_text(i32::MIN), "-2147483648");
}

#[test]
fn last_error_keeps_the_bits_of_the_code() {
    assert_eq!(WindowsError::last_error(0).code, 0);
    assert_eq!(WindowsError::last_error(5).code, 5);
    assert_eq!(WindowsError::last_error(0x7FFF_FFFF).code, i32::MAX);
    assert_eq!(WindowsError::last_error(0x8000_0000).code, i32::MIN);
    assert_eq!(WindowsError::last_error(0xC000_0005).code, 0xC000_0005u32 as i32);
    assert_eq!(WindowsError::last_error(u32::MAX).code, -1);
}

#[test]
fn windows_error_becomes_an_elevate_error_with_kind_code_and_context() {
    let error = WindowsError::last_error(5);
    let converted = error.to_elevate_error(WindowsErrorKind::TokenOperation, "opening the token");
    assert_eq!(
        converted,
        ElevateError::Windows {
            kind: WindowsErrorKind::TokenOperation,
            code: 5,
            context: "opening the token".to_string(),
        }
    );
    assert_eq!(converted.message(), "Windows error: Token operation failed (code: 5)");
    assert_eq!(
        WindowsError::last_error(u32::MAX)
            .to_elevate_error(WindowsErrorKind::ProcessOperation, "")
            .message(),
        "Windows error: Process operation failed (code: -1)"
    );
}

#[test]
fn token_error_kinds_have_their_wording() {
    assert_eq!(TokenErrorKind::ProcessOperation.message(), "Process operation failed");
    assert_eq!(TokenErrorKind::OpenProcessToken.message(), "Failed to open process token");
    assert_eq!(TokenErrorKind::AdjustPrivileges.message(), "Failed to adjust token privileges");
    assert_eq!(TokenErrorKind::LookupPrivilege.message(), "Failed to lookup privilege");
    assert_eq!(TokenErrorKind::Open.message(), "Failed to open token");
}

#[test]
fn privilege_error_kinds_have_their_wording() {
    assert_eq!(PrivilegeErrorKind::Enable.message(), "Failed to enable privilege");
    assert_eq!(PrivilegeErrorKind::Disable.message(), "Failed to disable privilege");
    assert_eq!(PrivilegeErrorKind::Query.message(), "Failed to query privilege");
}

#[test]
fn windows_error_kinds_have_their_wording() {
    assert_eq!(WindowsErrorKind::ProcessOperation.message(), "Process operation failed");
    assert_eq!(WindowsErrorKind::TokenOperation.message(), "Token operation failed");
    assert_eq!(WindowsErrorKind::SecurityOperation.message(), "Security operation failed");
    assert_eq!(WindowsErrorKind::ServiceOperation.message(), "Service operation failed");
    assert_eq!(WindowsErrorKind::PrivilegeOperation.message(), "Privilege operation failed");
    assert_eq!(WindowsErrorKind::IntegrityOperation.message(), "Integrity level operation failed");
    assert_eq!(WindowsErrorKind::RegistryOperation.message(), "Registry operation failed");
    assert_eq!(WindowsErrorKind::FileOperation.message(), "File operation failed");
    assert_eq!(WindowsErrorKind::MemoryOperation.message(), "Memory operation failed");
    assert_eq!(WindowsErrorKind::DebugOperation.message(), "Debug operation failed");
}

#[test]
fn elevate_errors_are_worded_by_category() {
    assert_eq!(
        ElevateError::TokenError { kind: TokenErrorKind::LookupPrivilege }.message(),
        "Token error: Failed to lookup privilege"
    );
    assert_eq!(
        ElevateError::PrivilegeError {
            kind: PrivilegeErrorKind::Enable,
            privilege: Some("SeDebugPrivilege".to_string()),
        }
        .message(),
        "Privilege error: Failed to enable privilege"
    );
    assert_eq!(ElevateError::ConfigError("bad".to_string()).message(), "Configuration error: bad");
    assert_eq!(ElevateError::IoError("disk".to_string()).message(), "IO error: disk");
    assert_eq!(ElevateError::ValidationError("empty".to_string()).message(), "Validation error: empty");
    assert_eq!(ElevateError::ProcessError("gone".to_string()).message(), "Process error: gone");
}

#[test]
fn ti_errors_are_worded_by_category() {
    assert_eq!(TiError::ServiceError("a".to_string()).message(), "Service error: a");
    assert_eq!(TiError::ProcessError("b".to_string()).message(), "Process error: b");
    assert_eq!(TiError::PrivilegeError("c".to_string()).message(), "Privilege error: c");
    assert_eq!(TiError::SystemError("d".to_string()).message(), "System error: d");
    assert_eq!(TiError::ConfigError("e".to_string()).message(), "Configuration error: e");
}
