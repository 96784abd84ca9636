use serviceos_runtime::abi::{PermissionPolicyState, ServiceImageId};
use serviceos_runtime::error::Error;
use serviceos_runtime::policy_store::{find_byte, load_policy_state, parse_policy_line, parse_u32_text, persist_policy_state};
use serviceos_runtime::security_service::SecurityState;

#[test]
fn written_file_lists_every_entry() {
    let mut state = SecurityState::new();
    state.policies[1] = PermissionPolicyState::Blocked;
    let text = persist_policy_state(&state);
    let expected = format!(
        "{}=0\n{}=2\n{}=0\n{}=0\n{}=0\n{}=0\n{}=0\n{}=0\n",
        ServiceImageId::SettingsApp.code(),
        ServiceImageId::FilesApp.code(),
        ServiceImageId::MonitorApp.code(),
        ServiceImageId::TerminalApp.code(),
        ServiceImageId::SoftwareCenterApp.code(),
        ServiceImageId::SysinfoTool.code(),
        ServiceImageId::PosixHostTool.code(),
        ServiceImageId::CrossBuilderTool.code(),
    );
    assert_eq!(text, expected.into_bytes());
}

#[test]
fn loading_the_written_file_restores_the_table() {
    let mut state = SecurityState::new();
    state.policies = [
        PermissionPolicyState::Blocked,
        PermissionPolicyState::Allowed,
        PermissionPolicyState::DefaultAllow,
        PermissionPolicyState::Blocked,
        PermissionPolicyState::Allowed,
        PermissionPolicyState::Allowed,
        PermissionPolicyState::DefaultAllow,
        PermissionPolicyState::Blocked,
    ];
    let text = persist_policy_state(&state);
    let mut fresh = SecurityState::new();
    assert_eq!(load_policy_state(&mut fresh, &text), Ok(()));
    assert_eq!(fresh.policies, state.policies);
}

#[test]
fn loading_trims_lines_and_skips_the_rest() {
    let files = ServiceImageId::FilesApp.code();
    let terminal = ServiceImageId::TerminalApp.code();
    let text = format!(
        "  {}=2 \r\n\nnot a line\n{}=1=3\n{}= 1\n\u{a0}{}=+1\n99=2\n{}=99999999999",
        files, terminal, terminal, terminal, files
    );
    let mut state = SecurityState::new();
    assert_eq!(load_policy_state(&mut state, text.as_bytes()), Ok(()));
    assert_eq!(state.policies[1], PermissionPolicyState::Blocked);
    assert_eq!(state.policies[3], PermissionPolicyState::Allowed);
    assert_eq!(state.policies[0], PermissionPolicyState::DefaultAllow);

    let mut untouched = SecurityState::new();
    untouched.policies[2] = PermissionPolicyState::Blocked;
    assert_eq!(load_policy_state(&mut untouched, &[b'1', 0xff, b'\n']), Err(Error::InvalidArgument));
    assert_eq!(untouched.policies[2], PermissionPolicyState::Blocked);
}

#[test]
fn numbers_parse_like_std() {
    assert_eq!(parse_u32_text(b"42"), Some(42));
    assert_eq!(parse_u32_text(b"+7"), Some(7));
    assert_eq!(parse_u32_text(b"+"), None);
    assert_eq!(parse_u32_text(b""), None);
    assert_eq!(parse_u32_text(b"-1"), None);
    assert_eq!(parse_u32_text(b"4294967295"), Some(u32::MAX));
    assert_eq!(parse_u32_text(b"4294967296"), None);
    assert_eq!(parse_u32_text(b"1 "), None);
    for s in ["0", "+0", "123", "4294967295", "4294967296", "+", "-3", "x"] {
        assert_eq!(parse_u32_text(s.as_bytes()), s.parse::<u32>().ok(), "{}", s);
    }
    assert_eq!(parse_policy_line(b"14=2"), Some((14, 2)));
    assert_eq!(parse_policy_line(b"14"), None);
    assert_eq!(find_byte(b"a=b=c", b'='), Some(1));
    assert_eq!(find_byte(b"abc", b'='), None);
}
