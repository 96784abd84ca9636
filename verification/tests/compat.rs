use serviceos_runtime::abi::{PermissionPolicyState, RuntimeKind, RuntimeTag, RuntimeWorkloadKind, RuntimeStatus, SecurityAuditKind};
use serviceos_runtime::compat::{
    pack_launch_words, runtime_audit_list, runtime_env_create, runtime_env_decide_request,
    runtime_env_list, runtime_env_mount, runtime_run_launch, runtime_run_launch_with_manifest,
    runtime_session_read_file, SANDBOX_MANIFEST_BLOB_LEN, SANDBOX_MANIFEST_VERSION,
};
use serviceos_runtime::error::Error;
use serviceos_runtime::message::{pack_bytes, Exchange, PageCursor, RawMessage, IPC_MAX_WORDS};
use serviceos_runtime::runtime_capability;
use serviceos_runtime::types::RuntimeEnvInfo;

#[test]
fn decide_request_legacy_shape_stays_two_words() {
    let request = runtime_env_decide_request(7, PermissionPolicyState::Allowed, None);
    assert_eq!(request.tag, RuntimeTag::EnvDecisionRequest.code());
    assert_eq!(request.word_count, 2);
    assert_eq!(request.words[0], 7);
    assert_eq!(
        request.words[1],
        PermissionPolicyState::Allowed.code() as u64
    );
}

#[test]
fn decide_request_mask_shape_appends_allowed_mask_word() {
    let mask = runtime_capability::NETWORK | runtime_capability::AUDIO;
    let request = runtime_env_decide_request(3, PermissionPolicyState::Allowed, Some(mask));
    assert_eq!(request.tag, RuntimeTag::EnvDecisionRequest.code());
    assert_eq!(request.word_count, 3);
    assert_eq!(request.words[0], 3);
    assert_eq!(
        request.words[1],
        PermissionPolicyState::Allowed.code() as u64
    );
    assert_eq!(request.words[2], mask as u64);

    // Legacy prefix words are byte-identical in both shapes.
    let legacy = runtime_env_decide_request(3, PermissionPolicyState::Allowed, None);
    assert_eq!(request.words[0..2], legacy.words[0..2]);
}

#[test]
fn launch_packing_without_manifest_matches_legacy_layout() {
    let mut request = RawMessage::empty(RuntimeTag::RunLaunchRequest.code());
    pack_launch_words(&mut request, 2, RuntimeWorkloadKind::Cat, b"/data/a", None)
        .expect("pack");
    assert_eq!(request.word_count, 3 + 1);
    assert_eq!(request.words[0], 2);
    assert_eq!(request.words[1], RuntimeWorkloadKind::Cat.code() as u64);
    assert_eq!(request.words[2], 7);
    // Legacy envelopes never carry manifest words.
    assert_eq!(request.words[4], 0);
}

#[test]
fn launch_packing_appends_manifest_trailing_words() {
    let blob: [u8; SANDBOX_MANIFEST_BLOB_LEN] = [1, 0, 0b0001, 0, 0, 0, 0, 0];
    let mut request = RawMessage::empty(RuntimeTag::RunLaunchRequest.code());
    pack_launch_words(
        &mut request,
        0,
        RuntimeWorkloadKind::Inspect,
        b"/bin/demo",
        Some(&blob),
    )
    .expect("pack");
    // 3 header words + ceil(9/8)=2 arg words + 2 manifest words.
    assert_eq!(request.word_count, 3 + 2 + 2);
    let header_index = 3 + 2;
    assert_eq!(
        request.words[header_index],
        (SANDBOX_MANIFEST_VERSION << 56) | SANDBOX_MANIFEST_BLOB_LEN as u64
    );
    assert_eq!(request.words[header_index + 1], u64::from_le_bytes(blob));
    // Header + arg prefix are byte-identical to the manifest-less shape.
    let mut legacy = RawMessage::empty(RuntimeTag::RunLaunchRequest.code());
    pack_launch_words(
        &mut legacy,
        0,
        RuntimeWorkloadKind::Inspect,
        b"/bin/demo",
        None,
    )
    .expect("legacy pack");
    assert_eq!(request.words[0..3 + 2], legacy.words[0..3 + 2]);
}

#[test]
fn launch_packing_bounds_argument_by_manifest_budget() {
    let blob: [u8; SANDBOX_MANIFEST_BLOB_LEN] = [0; SANDBOX_MANIFEST_BLOB_LEN];
    let long = [b'a'; (IPC_MAX_WORDS - 3) * 8];
    let mut request = RawMessage::empty(0);
    // Full-legacy-budget argument fits without a manifest...
    assert!(
        pack_launch_words(&mut request, 0, RuntimeWorkloadKind::Inspect, &long, None).is_ok()
    );
    // ...but cannot carry one: two trailing words would overflow the
    // 16-word envelope, and truncating silently is not an option.
    assert!(
        pack_launch_words(
            &mut request,
            0,
            RuntimeWorkloadKind::Inspect,
            &long,
            Some(&blob)
        )
        .is_err()
    );
    let max_manifest_arg = [b'a'; (IPC_MAX_WORDS - 3 - 2) * 8];
    assert!(
        pack_launch_words(
            &mut request,
            0,
            RuntimeWorkloadKind::Inspect,
            &max_manifest_arg,
            Some(&blob)
        )
        .is_ok()
    );
}

fn reply(tag: u32, words: &[u64]) -> RawMessage {
    let mut m = RawMessage::empty(tag);
    m.word_count = words.len() as u32;
    m.words[..words.len()].copy_from_slice(words);
    m
}

#[test]
fn env_create_sends_kind_and_decodes_id_or_error() {
    match runtime_env_create(RuntimeKind::Windows, None) {
        Exchange::Send(m) => {
            assert_eq!(m.tag, RuntimeTag::EnvCreateRequest.code());
            assert_eq!(m.word_count, 1);
            assert_eq!(m.words[0], RuntimeKind::Windows.code() as u64);
        }
        other => panic!("unexpected {other:?}"),
    }
    let ok = reply(RuntimeTag::EnvCreateReply.code(), &[RuntimeStatus::Success.code() as u64, 42]);
    assert_eq!(runtime_env_create(RuntimeKind::Posix, Some(&ok)), Exchange::Done(Ok(42)));
    let denied = reply(RuntimeTag::EnvCreateReply.code(), &[RuntimeStatus::Denied.code() as u64, 0]);
    assert_eq!(runtime_env_create(RuntimeKind::Posix, Some(&denied)), Exchange::Done(Err(Error::PermissionDenied)));
    let pending = reply(RuntimeTag::EnvCreateReply.code(), &[RuntimeStatus::PendingApproval.code() as u64, 0]);
    assert_eq!(runtime_env_create(RuntimeKind::Posix, Some(&pending)), Exchange::Done(Err(Error::Busy)));
    let short = reply(RuntimeTag::EnvCreateReply.code(), &[0]);
    assert_eq!(runtime_env_create(RuntimeKind::Posix, Some(&short)), Exchange::Done(Err(Error::InvalidArgument)));
    let wrong_tag = reply(RuntimeTag::EnvStatusReply.code(), &[0, 42]);
    assert_eq!(runtime_env_create(RuntimeKind::Posix, Some(&wrong_tag)), Exchange::Done(Err(Error::InvalidArgument)));
}

#[test]
fn env_list_pages_until_cursor_stops_advancing() {
    let mut envs = [RuntimeEnvInfo {
        env_id: 0,
        kind: RuntimeKind::Posix,
        state: serviceos_runtime::abi::RuntimeEnvState::Ready,
        capabilities: 0,
        mount_count: 0,
        var_count: 9,
        active_runs: 0,
    }; 3];
    let mut cursor = PageCursor { start: 7, filled: 7 };
    match runtime_env_list(&mut envs, &mut cursor, None) {
        Exchange::Send(m) => assert_eq!((m.tag, m.word_count, m.words[0]), (RuntimeTag::EnvListRequest.code(), 1, 0)),
        other => panic!("unexpected {other:?}"),
    }
    assert_eq!(cursor, PageCursor { start: 0, filled: 0 });
    let ok = RuntimeStatus::Success.code() as u64;
    let page1 = reply(RuntimeTag::EnvListReply.code(), &[ok, 2, 5, 1, 1, 0, 3, 2, 1, 2, 0, 1, 0, 0, 0]);
    match runtime_env_list(&mut envs, &mut cursor, Some(&page1)) {
        Exchange::Send(m) => assert_eq!(m.words[0], 5),
        other => panic!("unexpected {other:?}"),
    }
    assert_eq!(envs[0].env_id, 1);
    assert_eq!(envs[0].kind, RuntimeKind::Windows);
    assert_eq!(envs[0].capabilities, 3);
    assert_eq!(envs[0].var_count, 0);
    assert_eq!(envs[1].env_id, 2);
    let page2 = reply(RuntimeTag::EnvListReply.code(), &[ok, 1, 5, 9, 0, 0, 0, 0, 4]);
    assert_eq!(runtime_env_list(&mut envs, &mut cursor, Some(&page2)), Exchange::Done(Ok(3)));
    assert_eq!(envs[2].env_id, 9);
    assert_eq!(envs[2].active_runs, 4);
    // A page that does not fit the remaining room is refused.
    let mut small = [envs[0]; 1];
    let mut fresh = PageCursor { start: 0, filled: 0 };
    assert_eq!(runtime_env_list(&mut small, &mut fresh, Some(&page1)), Exchange::Done(Err(Error::BufferTooSmall)));
}

#[test]
fn env_mount_splits_packed_guest_and_source() {
    let mut payload = [0u64; 2];
    pack_bytes(b"/data/srv", &mut payload).unwrap();
    let ok = RuntimeStatus::Success.code() as u64;
    let m = reply(RuntimeTag::EnvMountListReply.code(), &[ok, 5, 4, payload[0], payload[1]]);
    let mut guest = [0u8; 8];
    let mut source = [0u8; 8];
    assert_eq!(runtime_env_mount(1, 0, &mut guest, &mut source, Some(&m)), Exchange::Done(Ok(Some((5, 4)))));
    assert_eq!(&guest[..5], b"/data");
    assert_eq!(&source[..4], b"/srv");
    let end = reply(RuntimeTag::EnvMountListReply.code(), &[RuntimeStatus::NotFound.code() as u64, 0, 0]);
    assert_eq!(runtime_env_mount(1, 1, &mut guest, &mut source, Some(&end)), Exchange::Done(Ok(None)));
    let mut tiny = [0u8; 2];
    assert_eq!(runtime_env_mount(1, 0, &mut tiny, &mut source, Some(&m)), Exchange::Done(Err(Error::BufferTooSmall)));
}

#[test]
fn launch_request_refuses_oversized_argument() {
    let long = "a".repeat(105);
    assert_eq!(runtime_run_launch(1, RuntimeWorkloadKind::Cat, &long, None), Exchange::Done(Err(Error::BufferTooSmall)));
    let blob = [0u8; 8];
    let mid = "a".repeat(89);
    assert_eq!(runtime_run_launch_with_manifest(1, RuntimeWorkloadKind::Cat, &mid, Some(&blob), None), Exchange::Done(Err(Error::BufferTooSmall)));
    match runtime_run_launch(1, RuntimeWorkloadKind::Cat, &mid, None) {
        Exchange::Send(m) => assert_eq!(m.word_count, 3 + 12),
        other => panic!("unexpected {other:?}"),
    }
}

#[test]
fn read_file_request_caps_and_reply_unpacks() {
    let mut buffer = [0u8; 200];
    match runtime_session_read_file("/etc/motd", 16, &mut buffer, None) {
        Exchange::Send(m) => {
            assert_eq!(m.words[0], 16);
            assert_eq!(m.words[1], 9);
            assert_eq!(m.words[2], 104);
        }
        other => panic!("unexpected {other:?}"),
    }
    let mut payload = [0u64; 1];
    pack_bytes(b"hello", &mut payload).unwrap();
    let m = reply(RuntimeTag::SessionReadFileReply.code(), &[RuntimeStatus::Success.code() as u64, 5, payload[0]]);
    assert_eq!(runtime_session_read_file("/etc/motd", 0, &mut buffer, Some(&m)), Exchange::Done(Ok(5)));
    assert_eq!(&buffer[..5], b"hello");
}

#[test]
fn audit_list_decodes_detail_high_word() {
    let ok = RuntimeStatus::Success.code() as u64;
    let m = reply(RuntimeTag::AuditListReply.code(), &[ok, 4, SecurityAuditKind::LaunchDenied.code() as u64, 2, 6, 0x0000_0007_0000_0001]);
    match runtime_audit_list(0, Some(&m)) {
        Exchange::Done(Ok(Some(info))) => {
            assert_eq!(info.sequence, 4);
            assert_eq!(info.kind, SecurityAuditKind::LaunchDenied);
            assert_eq!(info.detail, 7);
        }
        other => panic!("unexpected {other:?}"),
    }
    let end = reply(RuntimeTag::AuditListReply.code(), &[RuntimeStatus::NotFound.code() as u64, 0, 0, 0, 0, 0]);
    assert_eq!(runtime_audit_list(9, Some(&end)), Exchange::Done(Ok(None)));
}
