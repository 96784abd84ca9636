use serviceos_runtime::abi::{StorageEntryKind, StorageMountKind, StorageStatus, StorageTag};
use serviceos_runtime::error::Error;
use serviceos_runtime::message::{pack_bytes, unpack_bytes, Exchange, RawMessage};
use serviceos_runtime::storage::{
    storage_mount_list, storage_open, storage_read_all, storage_search_parse_reply,
    storage_search_request, StorageSearchQuery, STORAGE_SEARCH_QUERY_BYTES_MAX,
    STORAGE_SEARCH_REPLY_TAG, STORAGE_SEARCH_REQUEST_TAG,
};

#[test]
fn storage_search_query_compacts_and_caps_tokens() {
    let query = StorageSearchQuery::from_bytes(b"  alpha   beta gamma delta  ")
        .expect("query should keep first three tokens");
    assert_eq!(query.as_bytes(), b"alpha beta gamma");

    let query = StorageSearchQuery::from_bytes(b"abcdefghijklmnopqrstuvwxYZ123456  second")
        .expect("query should keep truncated first token");
    assert_eq!(query.as_bytes(), b"abcdefghijklmnopqrstuvwx second");

    assert!(StorageSearchQuery::from_bytes(b"   ").is_none());
    assert!(StorageSearchQuery::from_bytes(&[0, b' ', 0]).is_none());
}

#[test]
fn storage_search_request_packs_scope_and_query() {
    let query = StorageSearchQuery::new("boot notes").expect("query should build");
    let request = storage_search_request(3, b"state/docs/", &query).expect("request builds");
    assert_eq!(request.tag, STORAGE_SEARCH_REQUEST_TAG);
    assert_eq!(request.word_count, 10);
    assert_eq!(request.words[0], 3);
    assert_eq!(request.words[1], 11);
    assert_eq!(request.words[2], 0);
    assert_eq!(request.words[3], 0);
    assert_eq!(request.words[4], 0);
    assert_eq!(request.words[5], 10);

    let mut scope = [0u8; 16];
    unpack_bytes(&request.words[6..8], 11, &mut scope).expect("scope decodes");
    assert_eq!(&scope[..11], b"state/docs/");

    let mut query_buf = [0u8; STORAGE_SEARCH_QUERY_BYTES_MAX];
    unpack_bytes(&request.words[8..10], 10, &mut query_buf).expect("query decodes");
    assert_eq!(&query_buf[..10], b"boot notes");
}

#[test]
fn storage_search_parse_reply_handles_ok_and_end() {
    let mut payload = [0u64; 4];
    pack_bytes(b"boot/notes.txt", &mut payload).expect("payload packs");

    let mut reply = RawMessage::empty(STORAGE_SEARCH_REPLY_TAG);
    reply.word_count = 6;
    reply.words[0] = StorageStatus::Success.code() as u64;
    reply.words[1] = 4;
    reply.words[2] = StorageEntryKind::File.code() as u64;
    reply.words[3] = 14;
    reply.words[4..8].copy_from_slice(&payload);

    let parsed = storage_search_parse_reply::<32>(&reply).expect("reply should parse cleanly");
    let parsed = parsed.expect("reply should produce a hit");
    assert_eq!(parsed.next_cursor, 4);
    assert_eq!(parsed.kind, StorageEntryKind::File);
    assert_eq!(parsed.path_as_str(), "boot/notes.txt");

    reply.words[0] = StorageStatus::End.code() as u64;
    assert_eq!(storage_search_parse_reply::<32>(&reply).expect("end should parse"), None);
}

#[test]
fn storage_search_parse_reply_rejects_malformed_shapes() {
    let mut reply = RawMessage::empty(STORAGE_SEARCH_REPLY_TAG);
    reply.word_count = 4;
    reply.words[0] = StorageStatus::Busy.code() as u64;
    assert_eq!(storage_search_parse_reply::<16>(&reply), Err(Error::InvalidArgument));

    reply.words[0] = StorageStatus::Success.code() as u64;
    reply.words[2] = 99;
    reply.words[3] = 4;
    assert_eq!(storage_search_parse_reply::<16>(&reply), Err(Error::InvalidArgument));

    reply.tag = 0x999;
    assert_eq!(storage_search_parse_reply::<16>(&reply), Err(Error::InvalidArgument));

    reply.tag = STORAGE_SEARCH_REPLY_TAG;
    reply.word_count = 3;
    assert_eq!(storage_search_parse_reply::<16>(&reply), Err(Error::InvalidArgument));
}

#[test]
fn search_query_keeps_nul_separated_tokens_apart() {
    let query = StorageSearchQuery::from_bytes(b"a\0b c d").expect("tokens found");
    assert_eq!(query.as_bytes(), b"a b c");
    assert_eq!(query.len(), 5);
}

#[test]
fn search_query_of_three_full_tokens_fills_the_room() {
    let long = "x".repeat(30);
    let text = format!("{} {} {}", long, long, long);
    let query = StorageSearchQuery::new(&text).expect("tokens found");
    assert_eq!(query.len(), STORAGE_SEARCH_QUERY_BYTES_MAX);
}

#[test]
fn open_maps_statuses_and_requires_a_handle() {
    match storage_open("boot/init", None) {
        Exchange::Send(m) => {
            assert_eq!(m.tag, StorageTag::OpenRequest.code());
            assert_eq!(m.words[0], 9);
            assert_eq!(m.word_count, 3);
        }
        other => panic!("expected a request, got {:?}", other),
    }
    let mut reply = RawMessage::empty(StorageTag::OpenReply.code());
    reply.word_count = 2;
    reply.words[1] = 77;
    assert_eq!(storage_open("x", Some(&reply)), Exchange::Done(Err(Error::InvalidArgument)));
    reply.handle_count = 1;
    reply.handles[0] = 42;
    assert_eq!(storage_open("x", Some(&reply)), Exchange::Done(Ok((42, 77))));
    reply.words[0] = StorageStatus::Denied.code() as u64;
    assert_eq!(storage_open("x", Some(&reply)), Exchange::Done(Err(Error::PermissionDenied)));
}

#[test]
fn read_all_accumulates_until_expected_length() {
    let mut buffer = [0u8; 6];
    let mut progress = 99usize;
    match storage_read_all(&mut buffer, 6, &mut progress, None) {
        Exchange::Send(m) => assert_eq!((m.words[0], m.words[1]), (0, 6)),
        other => panic!("expected a request, got {:?}", other),
    }
    assert_eq!(progress, 0);
    let mut reply = RawMessage::empty(StorageTag::ReadReply.code());
    reply.word_count = 4;
    reply.words[2] = 4;
    reply.words[3] = u64::from_le_bytes(*b"abcd\0\0\0\0");
    match storage_read_all(&mut buffer, 6, &mut progress, Some(&reply)) {
        Exchange::Send(m) => assert_eq!((m.words[0], m.words[1]), (4, 2)),
        other => panic!("expected a follow-up read, got {:?}", other),
    }
    reply.words[2] = 2;
    reply.words[3] = u64::from_le_bytes(*b"ef\0\0\0\0\0\0");
    assert_eq!(storage_read_all(&mut buffer, 6, &mut progress, Some(&reply)), Exchange::Done(Ok(6)));
    assert_eq!(&buffer, b"abcdef");
    let mut small = [0u8; 2];
    let mut p = 0usize;
    assert_eq!(storage_read_all(&mut small, 3, &mut p, None), Exchange::Done(Err(Error::BufferTooSmall)));
}

#[test]
fn mount_list_decodes_flags_and_path() {
    let mut reply = RawMessage::empty(StorageTag::MountListReply.code());
    reply.word_count = 6;
    reply.words[1] = 2;
    reply.words[2] = StorageMountKind::Persistent.code() as u64;
    reply.words[3] = 3;
    reply.words[4] = 5;
    reply.words[5] = u64::from_le_bytes(*b"state\0\0\0");
    let mut path = [0u8; 8];
    match storage_mount_list(0, &mut path, Some(&reply)) {
        Exchange::Done(Ok(Some(info))) => {
            assert_eq!(info.next_cursor, 2);
            assert_eq!(info.kind, StorageMountKind::Persistent);
            assert!(info.writable && info.persistent);
            assert_eq!(&path[..info.path_len], b"state");
        }
        other => panic!("expected a mount, got {:?}", other),
    }
    reply.words[0] = StorageStatus::End.code() as u64;
    assert_eq!(storage_mount_list(0, &mut path, Some(&reply)), Exchange::Done(Ok(None)));
}
