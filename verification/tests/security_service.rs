use serviceos_runtime::abi::{PermissionPolicyState, SecurityAuditKind, SecurityStatus, SecurityTag, ServiceImageId};
use serviceos_runtime::message::RawMessage;
use serviceos_runtime::security_service::{
    audit_kind_from_word, handle_request, record_audit, select_audit, AuditSlot, SecurityAction,
    SecurityState, MAX_AUDIT,
};

fn slot(kind: SecurityAuditKind, sequence: u32) -> AuditSlot {
    let mut entry = AuditSlot::empty();
    entry.occupied = true;
    entry.kind = kind;
    entry.sequence = sequence;
    entry
}

#[test]
fn audit_roundtrip_preserves_entries() {
    let mut audits = [AuditSlot::empty(); MAX_AUDIT];
    let mut next = 1u32;
    record_audit(&mut audits, &mut next, SecurityAuditKind::PolicyChanged, ServiceImageId::SettingsApp, PermissionPolicyState::Blocked, 0);
    record_audit(&mut audits, &mut next, SecurityAuditKind::LaunchDenied, ServiceImageId::TerminalApp, PermissionPolicyState::DefaultAllow, 42);
    let first = select_audit(&audits, 0, None).expect("first entry");
    assert!(matches!(first.kind, SecurityAuditKind::PolicyChanged));
    assert_eq!(first.sequence, 1);
    assert!(matches!(first.subject, ServiceImageId::SettingsApp));
    assert!(matches!(first.policy, PermissionPolicyState::Blocked));
    let second = select_audit(&audits, 1, None).expect("second entry");
    assert!(matches!(second.kind, SecurityAuditKind::LaunchDenied));
    assert_eq!(second.detail, 42);
    assert!(select_audit(&audits, 2, None).is_none());
    assert_eq!(next, 3);
}

#[test]
fn audit_kind_filter_skips_non_matching_entries() {
    let mut audits = [AuditSlot::empty(); MAX_AUDIT];
    audits[0] = slot(SecurityAuditKind::LaunchDenied, 1);
    audits[2] = slot(SecurityAuditKind::RuntimeApprovalRequested, 2);
    audits[3] = slot(SecurityAuditKind::RuntimeApprovalChanged, 3);
    let changed_word = SecurityAuditKind::RuntimeApprovalChanged.code() as u64;
    let filtered = select_audit(&audits, 0, Some(changed_word)).expect("filtered entry");
    assert_eq!(filtered.sequence, 3);
    assert!(select_audit(&audits, 1, Some(changed_word)).is_none());
    assert!(select_audit(&audits, 0, Some(9999)).is_none());
    assert_eq!(select_audit(&audits, 0, None).expect("unfiltered").sequence, 1);
}

#[test]
fn audit_kind_from_word_decodes_discriminants() {
    for kind in [
        SecurityAuditKind::PolicyChanged,
        SecurityAuditKind::LaunchDenied,
        SecurityAuditKind::RuntimeApprovalRequested,
        SecurityAuditKind::RuntimeApprovalChanged,
    ] {
        assert!(audit_kind_from_word(kind.code() as u64).is_some());
    }
    assert!(audit_kind_from_word(9999).is_none());
}

#[test]
fn audit_wraparound_overwrites_oldest_slot() {
    let mut audits = [AuditSlot::empty(); MAX_AUDIT];
    let mut next = 1u32;
    for _ in 0..=MAX_AUDIT {
        record_audit(&mut audits, &mut next, SecurityAuditKind::PolicyChanged, ServiceImageId::RootManager, PermissionPolicyState::DefaultAllow, 0);
    }
    assert!(audits.iter().all(|entry| entry.occupied));
    assert_eq!(audits[0].sequence, MAX_AUDIT as u32 + 1);
}

fn request(tag: SecurityTag, words: &[u64]) -> RawMessage {
    let mut m = RawMessage::empty(tag.code());
    m.word_count = words.len() as u32;
    m.words[..words.len()].copy_from_slice(words);
    m.handle_count = 1;
    m.handles[0] = 77;
    m
}

#[test]
fn policy_set_then_info_reports_the_new_policy() {
    let mut state = SecurityState::new();
    let image = ServiceImageId::FilesApp.code() as u64;
    let blocked = PermissionPolicyState::Blocked.code() as u64;
    match handle_request(&mut state, &request(SecurityTag::PolicySetRequest, &[image, blocked])) {
        Ok(SecurityAction::PolicyChanged { to, reply, image: changed, policy }) => {
            assert_eq!(to, 77);
            assert_eq!(reply.words[0], SecurityStatus::Success.code() as u64);
            assert_eq!(changed, ServiceImageId::FilesApp);
            assert_eq!(policy, PermissionPolicyState::Blocked);
        }
        other => panic!("expected a policy change, got {:?}", other),
    }
    match handle_request(&mut state, &request(SecurityTag::PolicyInfoRequest, &[image])) {
        Ok(SecurityAction::Reply { reply, .. }) => {
            assert_eq!(reply.words[0], SecurityStatus::Success.code() as u64);
            assert_eq!(reply.words[3], blocked);
            assert_eq!(reply.words[5], 5, "name length of \"files\"");
        }
        other => panic!("expected a reply, got {:?}", other),
    }
    let entry = select_audit(&state.audits, 0, None).expect("change audited");
    assert_eq!(entry.sequence, 1);
    assert_eq!(state.next_sequence, 2);
}

#[test]
fn unknown_images_and_missing_reply_channels() {
    let mut state = SecurityState::new();
    let mut no_channel = request(SecurityTag::PolicyInfoRequest, &[ServiceImageId::FilesApp.code() as u64]);
    no_channel.handle_count = 0;
    assert!(matches!(handle_request(&mut state, &no_channel), Ok(SecurityAction::Ignore)));
    match handle_request(&mut state, &request(SecurityTag::PolicyInfoRequest, &[ServiceImageId::StorageService.code() as u64])) {
        Ok(SecurityAction::Reply { reply, .. }) => {
            assert_eq!(reply.words[0], SecurityStatus::NotFound.code() as u64);
            assert_eq!(reply.word_count, 6);
        }
        other => panic!("expected a reply, got {:?}", other),
    }
}
