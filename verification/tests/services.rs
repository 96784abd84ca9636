use serviceos_runtime::abi::{
    ControlTag, LifecycleEvent, LogDomain, LogEvent, LogQueryStatus, LogSeverity, LogStatus, LogTag, ManagerServicePhase, ManagerStatus,
    ManagerTag, ServiceId, ServiceImageId,
};
use serviceos_runtime::error::Error;
use serviceos_runtime::ipc::{channel_call, channel_receive_blocking, channel_send_blocking};
use serviceos_runtime::kernel::{kernel_event_query_info, kernel_event_query_record};
use serviceos_runtime::lifecycle::{lifecycle_event_from_word, poll_lifecycle};
use serviceos_runtime::log_service::{log_query_record, log_receive_record, log_subscribe, send_log_record, LOG_FILTER_ANY};
use serviceos_runtime::manager::{
    manager_activate_service, manager_launch_program, manager_list_services, manager_restart_service, manager_service_status,
    StartupHandle, STARTUP_IO_RIGHTS,
};
use serviceos_runtime::memory::{memory_map_request, MemoryMapRequest, MEMORY_MAP_WRITABLE};
use serviceos_runtime::message::{Exchange, PageCursor, RawMessage};
use serviceos_runtime::rights;
use serviceos_runtime::types::ManagerServiceInfo;

fn reply(tag: u32, words: &[u64]) -> RawMessage {
    let mut m = RawMessage::empty(tag);
    m.word_count = words.len() as u32;
    m.words[..words.len()].copy_from_slice(words);
    m
}

#[test]
fn manager_listing_reads_phase_and_attempts() {
    let blank = ManagerServiceInfo { service_id: ServiceId::RootManager, phase: ManagerServicePhase::Dormant, attempts: 0 };
    let mut services = [blank; 3];
    let mut cursor = PageCursor { start: 0, filled: 0 };
    let phase = ManagerServicePhase::Ready.code() as u64 | (3u64 << 32);
    let page = reply(ManagerTag::ListServicesReply.code(), &[1, 4, ServiceId::Network.code() as u64, phase]);
    match manager_list_services(&mut services, &mut cursor, Some(&page)) {
        Exchange::Send(m) => assert_eq!(m.words[0], 4),
        other => panic!("unexpected {:?}", other),
    }
    assert_eq!(services[0], ManagerServiceInfo { service_id: ServiceId::Network, phase: ManagerServicePhase::Ready, attempts: 3 });
    let last = reply(ManagerTag::ListServicesReply.code(), &[0, u64::MAX]);
    assert_eq!(manager_list_services(&mut services, &mut cursor, Some(&last)), Exchange::Done(Ok(1)));
    let short = reply(ManagerTag::ListServicesReply.code(), &[2, 0, 0]);
    let mut cursor = PageCursor { start: 0, filled: 0 };
    assert_eq!(manager_list_services(&mut services, &mut cursor, Some(&short)), Exchange::Done(Err(Error::BufferTooSmall)));
}

#[test]
fn manager_statuses_map_to_errors() {
    let status = reply(ManagerTag::ServiceStatusReply.code(), &[ManagerStatus::Busy.code() as u64, ManagerServicePhase::Backoff.code() as u64, 2, 99]);
    assert_eq!(manager_service_status(ServiceId::Log, Some(&status)), Exchange::Done(Ok((ManagerStatus::Busy, ManagerServicePhase::Backoff, 2, 99))));
    let failed = reply(ManagerTag::ServiceActionReply.code(), &[ManagerStatus::Failed.code() as u64]);
    assert_eq!(manager_restart_service(ServiceId::Log, Some(&failed)), Exchange::Done(Err(Error::Busy)));
    let denied = reply(ManagerTag::ActivateReply.code(), &[ManagerStatus::Denied.code() as u64, 0]);
    assert_eq!(manager_activate_service("a/b", Some(&denied)), Exchange::Done(Err(Error::PermissionDenied)));
    let ok = reply(ManagerTag::ActivateReply.code(), &[0, ServiceId::Audio.code() as u64]);
    assert_eq!(manager_activate_service("a/b", Some(&ok)), Exchange::Done(Ok(ServiceId::Audio)));
    assert_eq!(manager_activate_service(&"p".repeat(121), None), Exchange::Done(Err(Error::BufferTooSmall)));
}

#[test]
fn launch_requests_carry_startup_payload() {
    match manager_launch_program(ServiceImageId::TerminalApp, Some(21), None) {
        Exchange::Send(m) => {
            assert_eq!(&m.words[..3], &[ServiceImageId::TerminalApp.code() as u64, 1, 1]);
            assert_eq!((m.handle_count, m.handles[0], m.handle_rights[0]), (1, 21, STARTUP_IO_RIGHTS));
        }
        other => panic!("unexpected {:?}", other),
    }
    assert_eq!(STARTUP_IO_RIGHTS, rights::SEND | rights::RECEIVE | rights::DUPLICATE | rights::TRANSFER);
    match manager_launch_program(ServiceImageId::FilesApp, None, None) {
        Exchange::Send(m) => assert_eq!((m.word_count, m.words[2], m.handle_count), (3, 0, 0)),
        other => panic!("unexpected {:?}", other),
    }
    let words = [0u64; 15];
    let h = StartupHandle { handle: 1, rights: 0 };
    assert_eq!(
        serviceos_runtime::manager::manager_launch_program_with_payload(ServiceImageId::FilesApp, &words, &[h], None),
        Exchange::Done(Err(Error::BufferTooSmall))
    );
    let mut launched = reply(ManagerTag::LaunchReply.code(), &[0]);
    assert_eq!(manager_launch_program(ServiceImageId::FilesApp, None, Some(&launched)), Exchange::Done(Err(Error::InvalidArgument)));
    launched.handle_count = 1;
    launched.handles[0] = 8;
    assert_eq!(manager_launch_program(ServiceImageId::FilesApp, None, Some(&launched)), Exchange::Done(Ok(8)));
}

#[test]
fn log_records_queries_and_subscriptions() {
    let record = send_log_record(ServiceId::Session, LogSeverity::Info, LogDomain::Session, LogEvent::SessionReady, 1, 2);
    assert_eq!(record.tag, LogTag::Record.code());
    assert_eq!(record.word_count, 7);
    assert_eq!(record.words[6], 0);
    let gone = reply(LogTag::QueryRecordReply.code(), &[LogQueryStatus::NotFound.code() as u64, 0]);
    assert_eq!(log_query_record(5, Some(&gone)), Exchange::Done(Ok(None)));
    let short = reply(LogTag::QueryRecordReply.code(), &[0, 0, 0]);
    assert_eq!(log_query_record(5, Some(&short)), Exchange::Done(Err(Error::InvalidArgument)));
    let found = reply(LogTag::QueryRecordReply.code(), &[0, 5, 100, ServiceId::Log.code() as u64, LogSeverity::Warn.code() as u64, 0, 0, 7, 8, 9]);
    match log_query_record(5, Some(&found)) {
        Exchange::Done(Ok(Some(r))) => assert_eq!((r.sequence, r.tick, r.severity, r.arg0, r.arg2), (5, 100, LogSeverity::Warn, 7, 9)),
        other => panic!("unexpected {:?}", other),
    }
    match log_subscribe(LogSeverity::Debug, None, Some(LogDomain::Kernel), None) {
        Exchange::Send(m) => assert_eq!(&m.words[..3], &[LogSeverity::Debug.code() as u64, LOG_FILTER_ANY, LogDomain::Kernel.code() as u64]),
        other => panic!("unexpected {:?}", other),
    }
    let busy = reply(LogTag::SubscribeReply.code(), &[LogStatus::Busy.code() as u64]);
    assert_eq!(log_subscribe(LogSeverity::Debug, None, None, Some(&busy)), Exchange::Done(Err(Error::Busy)));
    let odd = reply(LogTag::SubscribeReply.code(), &[77]);
    assert_eq!(log_subscribe(LogSeverity::Debug, None, None, Some(&odd)), Exchange::Done(Err(Error::InvalidArgument)));
    let streamed = reply(LogTag::StreamRecord.code(), &[1, 2, 0, 0, 0, 0, 3, 4, 5]);
    assert_eq!(log_receive_record(&streamed).map(|r| (r.sequence, r.arg2)), Ok((1, 5)));
}

#[test]
fn kernel_ipc_lifecycle_and_memory_decisions() {
    assert_eq!(kernel_event_query_info((7u64 << 32) | 3), (3, 7));
    assert_eq!(kernel_event_query_record::<u8>(Ok(4)), Ok(Some(4)));
    assert_eq!(kernel_event_query_record::<u8>(Err(Error::NotFound)), Ok(None));
    assert_eq!(kernel_event_query_record::<u8>(Err(Error::Busy)), Err(Error::Busy));
    assert_eq!(channel_send_blocking(Err(Error::CapacityExceeded)), None);
    assert_eq!(channel_send_blocking(Err(Error::Busy)), Some(Err(Error::Busy)));
    assert_eq!(channel_receive_blocking(Err(Error::QueueEmpty)), None);
    assert_eq!(channel_receive_blocking(Ok(())), Some(Ok(())));
    let mut request = RawMessage::empty(5);
    request.word_count = 1;
    request.words[0] = 9;
    channel_call(&mut request, 44);
    assert_eq!((request.handle_count, request.handles[0], request.handle_rights[0], request.words[0]), (1, 44, rights::SEND, 9));

    let stop = reply(ControlTag::Lifecycle.code(), &[LifecycleEvent::Stopped.code() as u64]);
    assert_eq!(poll_lifecycle(Ok(()), &stop), Ok(true));
    let ready = reply(ControlTag::Lifecycle.code(), &[LifecycleEvent::Ready.code() as u64]);
    assert_eq!(poll_lifecycle(Ok(()), &ready), Ok(false));
    assert_eq!(poll_lifecycle(Err(Error::QueueEmpty), &ready), Ok(false));
    assert_eq!(poll_lifecycle(Err(Error::Busy), &ready), Err(Error::Busy));
    assert_eq!(lifecycle_event_from_word(1234), LifecycleEvent::Restarting);

    assert_eq!(memory_map_request(4096, 8192, true), MemoryMapRequest { offset_bytes: 4096, length_bytes: 8192, address_hint: 0, flags: MEMORY_MAP_WRITABLE, reserved: 0 });
    assert_eq!(memory_map_request(0, 1, false).flags, 0);
}
