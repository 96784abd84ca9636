use serviceos_runtime::abi::{DesktopAppId, DesktopDragMode, DesktopInputAction, DesktopStatus, DesktopTag, DesktopWindowAction, DesktopWorkspaceAction};
use serviceos_runtime::desktop::{
    desktop_close_app, desktop_key_input, desktop_list_apps, desktop_list_windows, desktop_move_app, desktop_notification_history,
    desktop_notify, desktop_open_path, desktop_pointer_scroll_input_async, desktop_status, desktop_window_action,
    desktop_workspace_action,
};
use serviceos_runtime::error::Error;
use serviceos_runtime::message::{pack_bytes, Exchange, PageCursor, RawMessage};
use serviceos_runtime::types::{DesktopAppInfo, DesktopWindowInfo};

fn reply(tag: DesktopTag, words: &[u64]) -> RawMessage {
    let mut m = RawMessage::empty(tag.code());
    m.word_count = words.len() as u32;
    m.words[..words.len()].copy_from_slice(words);
    m
}

fn sent(step: Exchange<impl core::fmt::Debug>) -> RawMessage {
    match step {
        Exchange::Send(m) => m,
        other => panic!("expected a request, got {:?}", other),
    }
}

#[test]
fn status_reply_decodes_pointer_halves_and_drag_mode() {
    let pointer = ((-7i32) as u32 as u64) | ((300u64) << 32);
    let r = reply(DesktopTag::StatusReply, &[0, 4, DesktopAppId::Terminal.code() as u64, 3, 12, DesktopDragMode::Resize.code() as u64, pointer, 2, 4, 9]);
    match desktop_status(Some(&r)) {
        Exchange::Done(Ok(info)) => {
            assert_eq!(info.session_id, 4);
            assert_eq!(info.focused_app, Some(DesktopAppId::Terminal));
            assert_eq!(info.drag_mode, DesktopDragMode::Resize);
            assert_eq!((info.pointer_x, info.pointer_y), (-7, 300));
            assert_eq!(info.notification_count, 9);
        }
        other => panic!("unexpected {:?}", other),
    }
    let denied = reply(DesktopTag::StatusReply, &[DesktopStatus::Denied.code() as u64, 0, 0, 0]);
    assert_eq!(desktop_status(Some(&denied)), Exchange::Done(Err(Error::PermissionDenied)));
    let short = reply(DesktopTag::StatusReply, &[0, 0]);
    assert_eq!(desktop_status(Some(&short)), Exchange::Done(Err(Error::InvalidArgument)));
}

#[test]
fn app_listing_pages_and_stops_on_unknown_apps() {
    let blank = DesktopAppInfo { app_id: DesktopAppId::Settings, running: false, focused: false, surface_id: 0 };
    let mut apps = [blank; 4];
    let mut cursor = PageCursor { start: 0, filled: 0 };
    let first = sent(desktop_list_apps(&mut apps, &mut cursor, None));
    assert_eq!((first.word_count, first.words[0]), (1, 0));
    let page = reply(DesktopTag::ListAppsReply, &[0, 2, 5, DesktopAppId::Files.code() as u64, 1, 0, 21, DesktopAppId::Monitor.code() as u64, 1, 1, 22]);
    let next = sent(desktop_list_apps(&mut apps, &mut cursor, Some(&page)));
    assert_eq!(next.words[0], 5);
    assert_eq!(apps[1], DesktopAppInfo { app_id: DesktopAppId::Monitor, running: true, focused: true, surface_id: 22 });
    let end = reply(DesktopTag::ListAppsReply, &[0, 0, 5]);
    assert_eq!(desktop_list_apps(&mut apps, &mut cursor, Some(&end)), Exchange::Done(Ok(2)));

    let mut cursor = PageCursor { start: 0, filled: 0 };
    let bad = reply(DesktopTag::ListAppsReply, &[0, 1, 0, 99, 0, 0, 0]);
    assert_eq!(desktop_list_apps(&mut apps, &mut cursor, Some(&bad)), Exchange::Done(Err(Error::InvalidArgument)));
    let full = reply(DesktopTag::ListAppsReply, &[0, 1, 0, 0, 0, 0, 0]);
    let mut one = [blank; 0];
    assert_eq!(desktop_list_apps(&mut one, &mut cursor, Some(&full)), Exchange::Done(Err(Error::BufferTooSmall)));
}

#[test]
fn window_listing_unpacks_flags_and_geometry() {
    let blank = DesktopWindowInfo { app_id: DesktopAppId::Settings, surface_id: 0, x: 0, y: 0, width: 0, height: 0, z_order: 0, focused: false, minimized: false, visible: false };
    let mut windows = [blank; 2];
    let mut cursor = PageCursor { start: 0, filled: 0 };
    let flags = (7u64 << 32) | 0b101;
    let position = ((-4i32) as u32 as u64) | (10u64 << 32);
    let size = 640u64 | (480u64 << 32);
    let page = reply(DesktopTag::ListWindowsReply, &[0, 1, u32::MAX as u64, DesktopAppId::Terminal.code() as u64, 31, flags, position, size]);
    assert_eq!(desktop_list_windows(&mut windows, &mut cursor, Some(&page)), Exchange::Done(Ok(1)));
    assert_eq!(windows[0], DesktopWindowInfo {
        app_id: DesktopAppId::Terminal, surface_id: 31, x: -4, y: 10, width: 640, height: 480, z_order: 7,
        focused: true, minimized: false, visible: true,
    });
    let wrong = reply(DesktopTag::ListWindowsReply, &[0, 1, 0, 0, 0]);
    let mut cursor = PageCursor { start: 0, filled: 0 };
    assert_eq!(desktop_list_windows(&mut windows, &mut cursor, Some(&wrong)), Exchange::Done(Err(Error::InvalidArgument)));
    let more = reply(DesktopTag::ListWindowsReply, &[0, 0, 3]);
    let next = sent(desktop_list_windows(&mut windows, &mut cursor, Some(&more)));
    assert_eq!(next.words[0], 3);
}

#[test]
fn window_actions_carry_app_and_signed_arguments() {
    let m = sent(desktop_move_app(DesktopAppId::Files, -1, 5, None));
    assert_eq!(m.tag, DesktopTag::WindowActionRequest.code());
    assert_eq!(&m.words[..4], &[DesktopWindowAction::Move.code() as u64, DesktopAppId::Files.code() as u64, u64::MAX, 5]);
    let focus = sent(desktop_window_action(DesktopWindowAction::FocusNext, None, 0, 0, None));
    assert_eq!(focus.words[1], 0);
    let ok = reply(DesktopTag::WindowActionReply, &[0, 44]);
    assert_eq!(desktop_close_app(DesktopAppId::Files, Some(&ok)), Exchange::Done(Ok(())));
    let missing = reply(DesktopTag::WindowActionReply, &[DesktopStatus::NotFound.code() as u64, 0]);
    assert_eq!(desktop_close_app(DesktopAppId::Files, Some(&missing)), Exchange::Done(Err(Error::NotFound)));
}

#[test]
fn notify_and_open_path_bound_their_text() {
    let m = sent(desktop_notify("hello", None));
    assert_eq!(m.words[0], 5);
    assert_eq!(m.word_count, 2);
    let long = "x".repeat(121);
    assert_eq!(desktop_notify(&long, None), Exchange::Done(Err(Error::BufferTooSmall)));
    assert_eq!(desktop_open_path(&long, None), Exchange::Done(Err(Error::BufferTooSmall)));
    let fits = "y".repeat(120);
    assert_eq!(sent(desktop_open_path(&fits, None)).word_count, 16);
}

#[test]
fn notification_history_reads_text_into_its_field() {
    let mut packed = [0u64; 2];
    let n = pack_bytes(b"disk full", &mut packed).unwrap() as usize;
    let mut words = vec![0u64, 12, DesktopAppId::Monitor.code() as u64, 1, 9];
    words.extend_from_slice(&packed[..n]);
    match desktop_notification_history(3, Some(&reply(DesktopTag::NotificationHistoryReply, &words))) {
        Exchange::Done(Ok(info)) => {
            assert_eq!(info.sequence, 12);
            assert_eq!(info.source_app, Some(DesktopAppId::Monitor));
            assert!(info.actionable);
            assert_eq!(&info.text[..info.text_len as usize], b"disk full");
            assert!(info.text[9..].iter().all(|&b| b == 0));
        }
        other => panic!("unexpected {:?}", other),
    }
    let short = reply(DesktopTag::NotificationHistoryReply, &[0, 1, 2]);
    assert!(matches!(desktop_notification_history(3, Some(&short)), Exchange::Done(Err(Error::InvalidArgument))));
}

#[test]
fn workspace_and_input_requests() {
    let m = sent(desktop_workspace_action(DesktopWorkspaceAction::Switch, 2, None));
    assert_eq!(&m.words[..2], &[DesktopWorkspaceAction::Switch.code() as u64, 2]);
    let r = reply(DesktopTag::WorkspaceReply, &[0, 2, 4, 17]);
    match desktop_workspace_action(DesktopWorkspaceAction::Switch, 2, Some(&r)) {
        Exchange::Done(Ok(info)) => assert_eq!((info.active_workspace, info.workspace_count, info.focused_surface), (2, 4, 17)),
        other => panic!("unexpected {:?}", other),
    }
    let scroll = desktop_pointer_scroll_input_async(1, 2, -3);
    assert_eq!(&scroll.words[..4], &[DesktopInputAction::PointerScroll.code() as u64, 1, 2, (-3i64) as u64]);
    let key = sent(desktop_key_input(DesktopInputAction::KeyDown, 0xffff_ffff, 1, None));
    assert_eq!(key.words[1], u64::MAX);
}
