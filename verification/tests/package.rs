use serviceos_runtime::abi::{PackageChannel, PackageRepositoryTrustMode, PackageRing, PackageStatus, PackageTag, ServiceId};
use serviceos_runtime::error::Error;
use serviceos_runtime::message::{pack_bytes, unpack_bytes, Exchange, RawMessage};
use serviceos_runtime::package::{package_history, package_install, package_list, package_repository_add, package_repository_sync};

#[test]
fn list_splits_the_version_stream_between_buffers() {
    let mut reply = RawMessage::empty(PackageTag::ListReply.code());
    let mut packed = [0u64; 2];
    let n = pack_bytes(b"1.2.01.3.0", &mut packed).expect("texts pack");
    reply.word_count = 7 + n;
    reply.words[1] = ServiceId::Network.code() as u64;
    reply.words[2] = 0b011;
    reply.words[3] = 4;
    reply.words[4] = 5;
    reply.words[5] = 5;
    reply.words[7..7 + n as usize].copy_from_slice(&packed[..n as usize]);
    let mut installed = [0u8; 8];
    let mut active = [0u8; 8];
    match package_list(0, &mut installed, &mut active, Some(&reply)) {
        Exchange::Done(Ok(Some(entry))) => {
            assert_eq!(entry.service_id, ServiceId::Network);
            assert!(entry.installed && entry.active && !entry.rollback_available);
            assert_eq!(entry.repository_versions, 4);
            assert_eq!(&installed[..entry.installed_version_len], b"1.2.0");
            assert_eq!(&active[..entry.active_version_len], b"1.3.0");
        }
        other => panic!("expected an entry, got {:?}", other),
    }
    reply.word_count = 8;
    assert_eq!(package_list(0, &mut installed, &mut active, Some(&reply)), Exchange::Done(Err(Error::InvalidArgument)));
    reply.words[0] = PackageStatus::End.code() as u64;
    assert_eq!(package_list(0, &mut installed, &mut active, Some(&reply)), Exchange::Done(Ok(None)));
}

#[test]
fn history_reports_both_lengths_and_errors_map() {
    let mut reply = RawMessage::empty(PackageTag::HistoryReply.code());
    reply.word_count = 5;
    reply.words[1] = 3;
    reply.words[2] = 2;
    reply.words[4] = u64::from_le_bytes(*b"2.01.0\0\0");
    let mut current = [0u8; 4];
    let mut previous = [0u8; 4];
    assert_eq!(package_history(ServiceId::Log, &mut current, &mut previous, Some(&reply)), Exchange::Done(Ok((3, 2))));
    assert_eq!(&current[..3], b"2.0");
    assert_eq!(&previous[..2], b"1.");
    reply.words[0] = PackageStatus::Denied.code() as u64;
    assert_eq!(package_history(ServiceId::Log, &mut current, &mut previous, Some(&reply)), Exchange::Done(Err(Error::PermissionDenied)));
}

#[test]
fn install_request_carries_the_version() {
    match package_install(ServiceId::Shell, Some("2.1"), None) {
        Exchange::Send(m) => {
            assert_eq!(m.tag, PackageTag::InstallRequest.code());
            assert_eq!(m.words[0], ServiceId::Shell.code() as u64);
            assert_eq!(m.words[1], 3);
            let mut version = [0u8; 3];
            unpack_bytes(&m.words[2..3], 3, &mut version).expect("version decodes");
            assert_eq!(&version, b"2.1");
        }
        other => panic!("expected a request, got {:?}", other),
    }
    let mut reply = RawMessage::empty(PackageTag::InstallReply.code());
    reply.word_count = 1;
    reply.words[0] = PackageStatus::AlreadyInstalled.code() as u64;
    assert_eq!(package_install(ServiceId::Shell, None, Some(&reply)), Exchange::Done(Err(Error::Busy)));
}

#[test]
fn repository_add_packs_settings_and_texts_back_to_back() {
    match package_repository_add("main", "https://x", PackageRepositoryTrustMode::PinnedDigest, PackageChannel::Beta, PackageRing::Testing, true, 9, None) {
        Exchange::Send(m) => {
            assert_eq!(m.words[0], 2 | (1 << 16) | (2 << 32) | (1 << 48));
            assert_eq!((m.words[1], m.words[2], m.words[3]), (9, 4, 9));
            let mut texts = [0u8; 13];
            unpack_bytes(&m.words[4..6], 13, &mut texts).expect("texts decode");
            assert_eq!(&texts, b"mainhttps://x");
        }
        other => panic!("expected a request, got {:?}", other),
    }
    let long = "u".repeat(90);
    assert_eq!(
        package_repository_add("name-long", &long, PackageRepositoryTrustMode::Unsigned, PackageChannel::Stable, PackageRing::Production, false, 0, None),
        Exchange::Done(Err(Error::BufferTooSmall))
    );
}

#[test]
fn repository_sync_accepts_busy_and_offline() {
    let mut reply = RawMessage::empty(PackageTag::RepositorySyncReply.code());
    reply.word_count = 3;
    reply.words[0] = PackageStatus::Offline.code() as u64;
    reply.words[1] = 2;
    reply.words[2] = 1;
    match package_repository_sync(None, Some(&reply)) {
        Exchange::Done(Ok(info)) => assert_eq!((info.synced, info.failed), (2, 1)),
        other => panic!("expected counts, got {:?}", other),
    }
    match package_repository_sync(None, None) {
        Exchange::Send(m) => assert_eq!(m.words[0], u64::MAX),
        other => panic!("expected a request, got {:?}", other),
    }
}
