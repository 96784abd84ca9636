use serviceos_runtime::backup::{
    backup_error_from_code, backup_error_name, backup_route_position, decode_export_reply, note_transport_outcome, on_page_enter,
    page_live, BackupOpError, BackupPhase, BackupPrompt, BackupSnapshotEntry, BackupUiState, BackupUnavailable,
    BACKUP_ERROR_BAD_SIG, BACKUP_ERROR_CAPACITY, BACKUP_ERROR_CORRUPT, BACKUP_ERROR_NOT_FOUND, BACKUP_ERROR_STORAGE,
    BACKUP_ERROR_UNSIGNED, BACKUP_LIST_END_STATUS, BACKUP_LIST_ROWS, BACKUP_NAME_MAX_BYTES, BACKUP_PATH_MAX_BYTES,
    BACKUP_SCOPE_KNOWN_MASK, BACKUP_TAG_DELETE_REPLY, BACKUP_TAG_DELETE_REQUEST, BACKUP_TAG_EXPORT_REPLY,
    BACKUP_TAG_EXPORT_REQUEST, BACKUP_TAG_LIST_REPLY, BACKUP_TAG_LIST_REQUEST, BACKUP_TAG_RESTORE_REPLY,
    BACKUP_TAG_RESTORE_REQUEST,
};
use serviceos_runtime::message::{pack_bytes, unpack_bytes, RawMessage, INVALID_HANDLE};

/// Builds a reply carrying exactly `words`.
fn reply(tag: u32, words: &[u64]) -> RawMessage {
    let mut message = RawMessage::empty(tag);
    message.word_count = words.len() as u32;
    message.words[..words.len()].copy_from_slice(words);
    message
}

fn packed_name_suffix(name: &[u8]) -> Vec<u64> {
    let mut words = vec![0u64; name.len().div_ceil(8)];
    let packed = pack_bytes(name, &mut words).unwrap();
    assert_eq!(packed as usize, words.len());
    words
}

#[test]
fn export_request_validates_scope_mask() {
    let state = BackupUiState::new();
    let request = state
        .encode_export_request(BACKUP_SCOPE_KNOWN_MASK)
        .unwrap();
    assert_eq!(request.tag, BACKUP_TAG_EXPORT_REQUEST);
    assert_eq!(request.word_count, 1);
    assert_eq!(request.words[0], 7);
    assert_eq!(
        state.encode_export_request(1 << 7).unwrap_err(),
        BackupOpError::UnknownScope
    );
    // Mask 0 is wire-legal (service-side selects nothing).
    assert!(state.encode_export_request(0).is_ok());
}

#[test]
fn export_reply_roundtrip() {
    let name = b"20260830T101500";
    let mut words = vec![0u64, name.len() as u64, 12, 4096];
    words.extend_from_slice(&packed_name_suffix(name));
    let reply = reply(BACKUP_TAG_EXPORT_REPLY, &words);
    let mut state = BackupUiState::new();
    let info = state.on_export_reply(&reply).unwrap();
    assert_eq!(&info.name[..info.name_len], name);
    assert_eq!(info.record_count, 12);
    assert_eq!(info.blob_size, 4096);
    assert_eq!(state.phase, BackupPhase::Ready);
    assert_eq!(state.export_outcome, Some(Ok(info)));
    assert_eq!(state.latest_export, Some(info));
}

#[test]
fn export_reply_error_codes_map_honestly() {
    let mut state = BackupUiState::new();
    for (code, expected) in [
        (BACKUP_ERROR_CAPACITY, BackupOpError::CapacityExceeded),
        (BACKUP_ERROR_STORAGE, BackupOpError::StorageFailure),
        (99, BackupOpError::Malformed),
    ] {
        let reply = reply(BACKUP_TAG_EXPORT_REPLY, &[code, 0, 0, 0]);
        assert_eq!(state.on_export_reply(&reply).unwrap_err(), expected);
        assert_eq!(state.export_outcome, Some(Err(expected)));
        assert_eq!(state.phase, BackupPhase::Ready);
    }
}

#[test]
fn export_reply_rejects_short_and_bad_name() {
    let mut state = BackupUiState::new();
    assert_eq!(
        state
            .on_export_reply(&reply(BACKUP_TAG_EXPORT_REPLY, &[0, 0, 0, 0]))
            .unwrap_err(),
        BackupOpError::Malformed
    );
    // name_len over the service's MAX_BACKUP_NAME is malformed.
    let over_long_name_reply = reply(BACKUP_TAG_EXPORT_REPLY, &[0, 33, 0, 0]);
    assert_eq!(
        state.on_export_reply(&over_long_name_reply).unwrap_err(),
        BackupOpError::Malformed
    );
    // Wrong tag is malformed too.
    let wrong_tag_reply = reply(0x999, &[0, 4, 0, 0]);
    assert_eq!(
        state.on_export_reply(&wrong_tag_reply).unwrap_err(),
        BackupOpError::Malformed
    );
}

#[test]
fn list_roundtrip_capacity_bound_and_end() {
    let mut state = BackupUiState::new();
    state.begin_listing();
    assert_eq!(state.phase, BackupPhase::Listing);
    let path = b"backups/20260830T101500";
    let mut words = vec![0u64, 0, 1, path.len() as u64];
    words.extend_from_slice(&packed_name_suffix(path));
    for index in 0..BACKUP_LIST_ROWS as u64 + 2 {
        words[1] = index;
        let reply = reply(BACKUP_TAG_LIST_REPLY, &words);
        state.decode_list_reply(&reply).unwrap();
    }
    assert_eq!(state.entry_count, BACKUP_LIST_ROWS);
    assert_eq!(state.entry_total, BACKUP_LIST_ROWS + 2);
    assert_eq!(state.entries[0].index, 0);
    assert_eq!(
        state.entries[BACKUP_LIST_ROWS - 1].index,
        (BACKUP_LIST_ROWS - 1) as u64 as usize
    );
    assert_eq!(state.entries[0].path_str(), Some("backups/20260830T101500"));
    // End reply: word_count 3, no name.
    let end = reply(BACKUP_TAG_LIST_REPLY, &[BACKUP_LIST_END_STATUS, 0, 1]);
    assert_eq!(state.decode_list_reply(&end).unwrap(), None);
    assert_eq!(state.phase, BackupPhase::Ready);
}

#[test]
fn list_error_and_malformed_degrade() {
    let mut state = BackupUiState::new();
    state.begin_listing();
    // Service-side list failures are status-only replies (word_count 1).
    let storage_reply = reply(BACKUP_TAG_LIST_REPLY, &[BACKUP_ERROR_STORAGE]);
    assert_eq!(
        state.decode_list_reply(&storage_reply).unwrap_err(),
        BackupOpError::StorageFailure
    );
    assert_eq!(state.list_error, Some(BackupOpError::StorageFailure));
    assert_eq!(state.phase, BackupPhase::Idle);
    // A status error reply means the service was REACHED: the route is
    // unchanged, only the operation failed.
    assert_eq!(state.unavailable, Some(BackupUnavailable::NoRoute));

    state.begin_listing();
    // Short reply is malformed, not a panic.
    assert_eq!(
        state
            .decode_list_reply(&reply(BACKUP_TAG_LIST_REPLY, &[0, 0]))
            .unwrap_err(),
        BackupOpError::Malformed
    );
    // Over-long path is malformed.
    let mut words = vec![0u64, 0, 1, BACKUP_PATH_MAX_BYTES as u64 + 1];
    words.extend_from_slice(&[0u64; 8]);
    assert_eq!(
        state
            .decode_list_reply(&reply(BACKUP_TAG_LIST_REPLY, &words))
            .unwrap_err(),
        BackupOpError::Malformed
    );
}

#[test]
fn restore_two_step_dry_run_then_apply_is_gated() {
    let mut state = BackupUiState::new();
    state.begin_listing();
    let path = b"backups/20260830T101500";
    let mut words = vec![0u64, 0, 1, path.len() as u64];
    words.extend_from_slice(&packed_name_suffix(path));
    state
        .decode_list_reply(&reply(BACKUP_TAG_LIST_REPLY, &words))
        .unwrap();
    state
        .decode_list_reply(&reply(
            BACKUP_TAG_LIST_REPLY,
            &[BACKUP_LIST_END_STATUS, 0, 1],
        ))
        .unwrap();
    assert_eq!(state.phase, BackupPhase::Ready);

    // Apply is refused before any dry-run prompt exists.
    assert_eq!(
        state
            .confirm_restore_apply(BACKUP_SCOPE_KNOWN_MASK)
            .unwrap_err(),
        BackupOpError::Invalid
    );

    // Step 1: dry-run request carries dry_run=1 and the plain name.
    let request = state
        .begin_restore_dry_run(BACKUP_SCOPE_KNOWN_MASK)
        .unwrap();
    assert_eq!(request.tag, BACKUP_TAG_RESTORE_REQUEST);
    assert_eq!(request.words[0] as u32, BACKUP_SCOPE_KNOWN_MASK);
    assert_eq!(request.words[1], 1);
    assert_eq!(request.words[2], b"20260830T101500".len() as u64);
    assert_eq!(state.phase, BackupPhase::Restoring);

    // Dry-run reply opens the confirm prompt with the report.
    let report_words = [0u64, 1, 7, 12, 4096];
    let report = state
        .on_restore_reply(&reply(BACKUP_TAG_RESTORE_REPLY, &report_words))
        .unwrap();
    assert!(report.dry_run);
    assert_eq!(report.selected_records, 12);
    assert_eq!(state.prompt, Some(BackupPrompt::RestoreConfirm(report)));
    assert_eq!(state.phase, BackupPhase::Ready);

    // Step 2: apply request carries dry_run=0 and the same snapshot.
    let apply = state
        .confirm_restore_apply(BACKUP_SCOPE_KNOWN_MASK)
        .unwrap();
    assert_eq!(apply.words[1], 0);
    assert_eq!(apply.words[2], request.words[2]);
    assert_eq!(state.prompt, None);
    assert_eq!(state.phase, BackupPhase::Restoring);

    // Apply reply lands as the final outcome.
    let final_words = [0u64, 0, 7, 12, 4096];
    let applied = state
        .on_restore_reply(&reply(BACKUP_TAG_RESTORE_REPLY, &final_words))
        .unwrap();
    assert!(!applied.dry_run);
    assert_eq!(state.restore_outcome, Some(Ok(applied)));
    assert_eq!(state.prompt, None);
}

#[test]
fn restore_errors_and_malformed_degrade() {
    let mut state = BackupUiState::new();
    state.begin_listing();
    let path = b"backups/x1";
    let mut words = vec![0u64, 0, 1, path.len() as u64];
    words.extend_from_slice(&packed_name_suffix(path));
    state
        .decode_list_reply(&reply(BACKUP_TAG_LIST_REPLY, &words))
        .unwrap();

    // Not-found snapshot maps to the service code.
    let error_words = [BACKUP_ERROR_NOT_FOUND, 0, 0, 0, 0];
    assert_eq!(
        state
            .on_restore_reply(&reply(BACKUP_TAG_RESTORE_REPLY, &error_words))
            .unwrap_err(),
        BackupOpError::NotFound
    );
    assert_eq!(state.restore_outcome, Some(Err(BackupOpError::NotFound)));
    assert_eq!(state.phase, BackupPhase::Ready);

    // Short reply is malformed and flags transport, never panics.
    state
        .begin_restore_dry_run(BACKUP_SCOPE_KNOWN_MASK)
        .unwrap();
    assert_eq!(
        state
            .on_restore_reply(&reply(BACKUP_TAG_RESTORE_REPLY, &[0, 0]))
            .unwrap_err(),
        BackupOpError::Malformed
    );
    assert_eq!(state.unavailable, Some(BackupUnavailable::TransportFailure));

    // Corrupt blob code surfaces during dry-run decode.
    state
        .begin_restore_dry_run(BACKUP_SCOPE_KNOWN_MASK)
        .unwrap();
    let corrupt_words = [BACKUP_ERROR_CORRUPT, 0, 0, 0, 0];
    assert_eq!(
        state
            .on_restore_reply(&reply(BACKUP_TAG_RESTORE_REPLY, &corrupt_words))
            .unwrap_err(),
        BackupOpError::Corrupt
    );
}

#[test]
fn delete_flow_gated_and_compacts_rows() {
    let mut state = BackupUiState::new();
    state.begin_listing();
    for (index, path) in
        [0usize, 1, 2]
            .iter()
            .zip([b"backups/a1", b"backups/b2", b"backups/c3"])
    {
        let mut words = vec![0u64, *index as u64, 1, path.len() as u64];
        words.extend_from_slice(&packed_name_suffix(path));
        state
            .decode_list_reply(&reply(BACKUP_TAG_LIST_REPLY, &words))
            .unwrap();
    }
    state
        .decode_list_reply(&reply(
            BACKUP_TAG_LIST_REPLY,
            &[BACKUP_LIST_END_STATUS, 0, 1],
        ))
        .unwrap();

    // Confirm refused without prompt; begin_delete needs a selection.
    assert_eq!(state.confirm_delete().unwrap_err(), BackupOpError::Invalid);
    state.select(1);
    state.begin_delete().unwrap();
    assert_eq!(state.prompt, Some(BackupPrompt::DeleteConfirm));

    // Cancel closes the prompt and the next confirm is refused again.
    state.cancel_prompt();
    assert_eq!(state.confirm_delete().unwrap_err(), BackupOpError::Invalid);

    state.begin_delete().unwrap();
    let request = state.confirm_delete().unwrap();
    assert_eq!(request.tag, BACKUP_TAG_DELETE_REQUEST);
    assert_eq!(request.words[0], 2);
    assert_eq!(state.phase, BackupPhase::Deleting);

    state
        .on_delete_reply(&reply(BACKUP_TAG_DELETE_REPLY, &[0]))
        .unwrap();
    assert_eq!(state.delete_outcome, Some(Ok(())));
    assert_eq!(state.entry_count, 2);
    assert_eq!(state.entries[0].path_str(), Some("backups/a1"));
    assert_eq!(state.entries[1].path_str(), Some("backups/c3"));
    assert_eq!(state.phase, BackupPhase::Ready);

    // Service rejection maps honestly.
    state.begin_delete().unwrap();
    state.confirm_delete().unwrap();
    assert_eq!(
        state
            .on_delete_reply(&reply(BACKUP_TAG_DELETE_REPLY, &[BACKUP_ERROR_STORAGE]))
            .unwrap_err(),
        BackupOpError::StorageFailure
    );
    assert_eq!(
        state.delete_outcome,
        Some(Err(BackupOpError::StorageFailure))
    );
    assert_eq!(state.entry_count, 2);
}

#[test]
fn selection_bounds_and_empty_list() {
    let mut state = BackupUiState::new();
    // No rows: delete/restore targets are refused, not panicked.
    assert_eq!(state.begin_delete().unwrap_err(), BackupOpError::NotFound);
    state.select(3);
    assert_eq!(state.selected, 0);
    assert_eq!(
        state
            .begin_restore_dry_run(BACKUP_SCOPE_KNOWN_MASK)
            .unwrap_err(),
        BackupOpError::NotFound
    );
}

#[test]
fn restore_request_validates_name_and_scope() {
    let state = BackupUiState::new();
    assert_eq!(
        state
            .encode_restore_request_inner(BACKUP_SCOPE_KNOWN_MASK, true, b"")
            .unwrap_err(),
        BackupOpError::Invalid
    );
    assert_eq!(
        state
            .encode_restore_request_inner(BACKUP_SCOPE_KNOWN_MASK, true, &[0xa1; 33])
            .unwrap_err(),
        BackupOpError::Invalid
    );
    assert_eq!(
        state
            .encode_restore_request_inner(1 << 9, true, b"nm")
            .unwrap_err(),
        BackupOpError::UnknownScope
    );
    let request = state.encode_restore_request_inner(0, false, b"nm").unwrap();
    assert_eq!(request.word_count, 4);
    assert_eq!(request.words[1], 0);
}

#[test]
fn delete_request_layout_matches_service_decode() {
    let state = BackupUiState::new();
    assert_eq!(
        state.encode_delete_request(b"").unwrap_err(),
        BackupOpError::Invalid
    );
    assert_eq!(
        state.encode_delete_request(&[0x61; 33]).unwrap_err(),
        BackupOpError::Invalid
    );
    let request = state.encode_delete_request(b"20260830").unwrap();
    assert_eq!(request.tag, BACKUP_TAG_DELETE_REQUEST);
    assert_eq!(request.words[0], 8);
    assert_eq!(request.word_count, 2);
    let mut name = [0u8; BACKUP_NAME_MAX_BYTES];
    unpack_bytes(&request.words[1..request.word_count as usize], 8, &mut name).unwrap();
    assert_eq!(&name[..8], b"20260830");
}

#[test]
fn list_request_layout_matches_service_decode() {
    let state = BackupUiState::new();
    let request = state.encode_list_request(4);
    assert_eq!(request.tag, BACKUP_TAG_LIST_REQUEST);
    assert_eq!(request.word_count, 1);
    assert_eq!(request.words[0], 4);
}

#[test]
fn list_reply_signing_tail_is_additive() {
    let mut state = BackupUiState::new();
    state.begin_listing();
    let path = b"backups/backup-77";
    let mut words = vec![0u64, 0, 1, path.len() as u64];
    words.extend_from_slice(&packed_name_suffix(path));
    // Without the tail (old service): unsigned, key id 0.
    let entry = state
        .decode_list_reply(&reply(BACKUP_TAG_LIST_REPLY, &words.clone()))
        .unwrap()
        .unwrap();
    assert!(!entry.signed);
    assert_eq!(entry.key_id, 0);
    // With the tail: signed + key id ride along.
    words.push(1); // signed
    words.push(0x0123_4567_89ab_cdef); // key id
    let mut state = BackupUiState::new();
    state.begin_listing();
    let entry = state
        .decode_list_reply(&reply(BACKUP_TAG_LIST_REPLY, &words))
        .unwrap()
        .unwrap();
    assert!(entry.signed);
    assert_eq!(entry.key_id, 0x0123_4567_89ab_cdef);
    // End replies stay tail-free.
    let mut state = BackupUiState::new();
    state.begin_listing();
    assert_eq!(
        state.decode_list_reply(&reply(
            BACKUP_TAG_LIST_REPLY,
            &[BACKUP_LIST_END_STATUS, 0, 1]
        )),
        Ok(None)
    );
}

#[test]
fn export_reply_signing_tail_is_additive() {
    let name = b"20260830T101500";
    let mut words = vec![0u64, name.len() as u64, 3, 512];
    words.extend_from_slice(&packed_name_suffix(name));
    words.push(1);
    words.push(0xffeeddccbbaa9988);
    let info = decode_export_reply(&reply(BACKUP_TAG_EXPORT_REPLY, &words)).unwrap();
    assert!(info.signed);
    assert_eq!(info.key_id, 0xffeeddccbbaa9988);
    // Old-service reply (no tail) still decodes unsigned.
    let mut words = vec![0u64, name.len() as u64, 3, 512];
    words.extend_from_slice(&packed_name_suffix(name));
    let info = decode_export_reply(&reply(BACKUP_TAG_EXPORT_REPLY, &words)).unwrap();
    assert!(!info.signed);
    assert_eq!(info.key_id, 0);
}

#[test]
fn restore_reply_verified_tail_is_additive() {
    let mut state = BackupUiState::new();
    // Tail present: verified + key id.
    let report = state
        .on_restore_reply(&reply(
            BACKUP_TAG_RESTORE_REPLY,
            &[0, 1, 7, 12, 4096, 1, 0x1122_3344_5566_7788],
        ))
        .unwrap();
    assert!(report.verified);
    assert_eq!(report.key_id, 0x1122_3344_5566_7788);
    // Old-service reply (5 words) degrades to unverified.
    let mut state = BackupUiState::new();
    let report = state
        .on_restore_reply(&reply(BACKUP_TAG_RESTORE_REPLY, &[0, 1, 7, 12, 4096]))
        .unwrap();
    assert!(!report.verified);
    assert_eq!(report.key_id, 0);
}

#[test]
fn signing_refusals_map_to_distinct_honest_names() {
    let mut state = BackupUiState::new();
    state.begin_listing();
    let path = b"backups/backup-9";
    let mut words = vec![0u64, 0, 1, path.len() as u64];
    words.extend_from_slice(&packed_name_suffix(path));
    state
        .decode_list_reply(&reply(BACKUP_TAG_LIST_REPLY, &words))
        .unwrap();
    for (code, expected, name) in [
        (BACKUP_ERROR_UNSIGNED, BackupOpError::Unsigned, "UNSIGNED"),
        (BACKUP_ERROR_BAD_SIG, BackupOpError::BadSignature, "BAD-SIG"),
    ] {
        assert_eq!(backup_error_from_code(code), Some(expected));
        assert_eq!(backup_error_name(expected), name);
        state
            .begin_restore_dry_run(BACKUP_SCOPE_KNOWN_MASK)
            .unwrap();
        assert_eq!(
            state.on_restore_reply(&reply(BACKUP_TAG_RESTORE_REPLY, &[code, 0, 0, 0, 0, 0, 0])),
            Err(expected)
        );
        assert_eq!(state.restore_outcome, Some(Err(expected)));
        // The prompt never opens on a refused restore.
        assert_eq!(state.prompt, None);
    }
}

#[test]
fn route_position_follows_the_startup_contract() {
    assert_eq!(backup_route_position(7), None);
    assert_eq!(backup_route_position(8), Some(7));
    assert_eq!(backup_route_position(12), Some(7));
}

#[test]
fn page_enter_without_grant_keeps_the_honest_explainer() {
    let mut state = BackupUiState::new();
    assert_eq!(state.unavailable, Some(BackupUnavailable::NoRoute));
    on_page_enter(INVALID_HANDLE, &mut state);
    assert_eq!(state.unavailable, Some(BackupUnavailable::NoRoute));
    assert!(!page_live(&state));
    // A prior transport failure is never downgraded to NoRoute.
    state.unavailable = Some(BackupUnavailable::TransportFailure);
    on_page_enter(INVALID_HANDLE, &mut state);
    assert_eq!(state.unavailable, Some(BackupUnavailable::TransportFailure));
}

#[test]
fn page_enter_clears_prompts() {
    let mut state = BackupUiState::new();
    state.unavailable = None;
    state.phase = BackupPhase::Ready;
    state.entries[0] = BackupSnapshotEntry {
        index: 0,
        path: [0; BACKUP_PATH_MAX_BYTES],
        path_len: 0,
        name: {
            let mut name = [0; BACKUP_NAME_MAX_BYTES];
            name[..8].copy_from_slice(b"backup-1");
            name
        },
        name_len: 8,
        signed: false,
        key_id: 0,
    };
    state.entry_count = 1;
    state.selected = 0;
    let _ = state.begin_delete();
    assert!(state.prompt.is_some());
    on_page_enter(INVALID_HANDLE, &mut state);
    assert!(state.prompt.is_none());
}

#[test]
fn page_live_switch_drives_the_render_contract() {
    let mut state = BackupUiState::new();
    assert!(!page_live(&state));
    state.unavailable = None;
    assert!(page_live(&state));
    // Transport failure flips the page back to the explainer.
    let error = note_transport_outcome(&mut state);
    assert_eq!(error, BackupOpError::Transport);
    assert_eq!(state.phase, BackupPhase::Ready);
    assert_eq!(state.unavailable, Some(BackupUnavailable::TransportFailure));
    assert!(!page_live(&state));
}
