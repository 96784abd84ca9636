use serviceos_runtime::abi::{DesktopInputAction, DesktopTag, InputButton, InputEventKind, LogEvent, LogTag, SessionInputSource, SessionStatus, SessionTag};
use serviceos_runtime::error::Error;
use serviceos_runtime::message::{RawMessage, INVALID_HANDLE};
use serviceos_runtime::session_registry::{InputDecision, SessionRegistry, NO_SEAT};
use serviceos_runtime::session_service::{
    clamp_axis, client_input_routable, decode_client_input, handle_request, keycode_to_text, route_input_event,
    scale_input_axis, tolerate_input_backpressure, update_modifier_state, ClientInputVerdict, InputEventInfo,
    SessionAction, SessionState, CLIENT_INPUT_REQUEST, CURRENT_SESSION_REPLY, CURRENT_SESSION_REQUEST, MOD_CTRL,
    MOD_SHIFT, REGISTER_SESSION_REPLY, REGISTER_SESSION_REQUEST, SWITCH_ACTIVE_REPLY, SWITCH_ACTIVE_REQUEST,
};

fn client_input_frame(words: &[u64]) -> RawMessage {
    let mut message = RawMessage::empty(CLIENT_INPUT_REQUEST);
    message.word_count = words.len() as u32;
    message.words[..words.len()].copy_from_slice(words);
    message
}

fn request(tag: u32, words: &[u64], reply_to: u32) -> RawMessage {
    let mut message = RawMessage::empty(tag);
    message.word_count = words.len() as u32;
    message.words[..words.len()].copy_from_slice(words);
    message.handle_count = 1;
    message.handles[0] = reply_to;
    message
}

fn reply_of(action: SessionAction) -> (u32, RawMessage, Option<RawMessage>, Option<u32>) {
    match action {
        SessionAction::Reply { to, reply, log, close } => (to, reply, log, close),
        other => panic!("expected a reply, got {:?}", other),
    }
}

#[test]
fn decode_client_input_maps_kernel_event_vocabulary() {
    // Key press for peripheral device 3: full shape survives the decode.
    let routed = match decode_client_input(&client_input_frame(&[3, 3, 30, 1, 0])) {
        ClientInputVerdict::Routed(event) => event,
        ClientInputVerdict::Malformed => panic!("key frame must decode"),
    };
    assert_eq!(routed.kind, InputEventKind::Key.code());
    assert_eq!(routed.code, 30);
    assert_eq!(routed.value0, 1);
    assert_eq!(routed.value1, 0);
    assert_eq!(routed.source_id, 3);

    // Negative axis values round-trip through the word packing.
    let delta = match decode_client_input(&client_input_frame(&[
        1,
        InputEventKind::PointerDelta.code() as u64,
        0,
        (-12i32) as u32 as u64,
        40,
    ])) {
        ClientInputVerdict::Routed(event) => event,
        ClientInputVerdict::Malformed => panic!("delta frame must decode"),
    };
    assert_eq!(delta.value0, -12);
    assert_eq!(delta.value1, 40);

    for kind in 1..=5u64 {
        let frame = client_input_frame(&[1, kind, 0, 0, 0]);
        assert!(matches!(decode_client_input(&frame), ClientInputVerdict::Routed(_)));
    }
}

#[test]
fn decode_client_input_rejects_malformed_frames() {
    // Short frame.
    assert_eq!(decode_client_input(&client_input_frame(&[1, 3, 30])), ClientInputVerdict::Malformed);
    // Empty frame.
    assert_eq!(decode_client_input(&client_input_frame(&[])), ClientInputVerdict::Malformed);
    // Unknown kind words: 0, 6, and far out of range.
    for kind in [0u64, 6, 99, u64::MAX] {
        assert_eq!(decode_client_input(&client_input_frame(&[1, kind, 0, 0, 0])), ClientInputVerdict::Malformed);
    }
}

#[test]
fn client_input_gate_mirrors_hardware_isolation() {
    assert!(client_input_routable(InputDecision::RouteToDesktop(1)));
    assert!(!client_input_routable(InputDecision::DropInactive(1)));
    assert!(!client_input_routable(InputDecision::DropHandoff));
    assert!(!client_input_routable(InputDecision::DropNoSession));
}

#[test]
fn client_input_drop_path_never_touches_the_desktop_route() {
    // Empty registry -> DropNoSession: the request is dropped without any
    // desktop route being asked for.
    let mut state = SessionState {
        registry: SessionRegistry::empty(),
        input_source: SessionInputSource::ServiceControl,
        input_handle: 0,
        desktop_handle: INVALID_HANDLE,
        output_width: 1024,
        output_height: 768,
        pointer_x: 512,
        pointer_y: 384,
        modifiers: 0,
    };
    assert!(matches!(handle_request(&mut state, &client_input_frame(&[1, 3, 30, 1, 0])), SessionAction::Ignore));
    // Pointer state untouched by the drop.
    assert_eq!(state.pointer_x, 512);
    assert_eq!(state.pointer_y, 384);
}

#[test]
fn booted_service_routes_client_input_to_the_active_session() {
    let mut state = SessionState::new(0, 9, 1024, 768);
    assert_eq!(state.input_source, SessionInputSource::ServiceControl);
    assert_eq!((state.pointer_x, state.pointer_y), (512, 384));
    match handle_request(&mut state, &client_input_frame(&[2, 3, 30, 1, 0])) {
        SessionAction::Route(event) => assert_eq!(event, InputEventInfo { kind: 3, code: 30, value0: 1, value1: 0, source_id: 2 }),
        other => panic!("expected a route, got {:?}", other),
    }
    assert_eq!(SessionState::new(5, 9, 10, 10).input_source, SessionInputSource::Hardware);
}

#[test]
fn list_status_and_current_replies_describe_the_registry() {
    let mut state = SessionState::new(0, 9, 800, 600);
    let (to, reply, log, close) = reply_of(handle_request(&mut state, &request(SessionTag::ListRequest.code(), &[], 40)));
    assert_eq!(to, 40);
    assert!(log.is_none() && close.is_none());
    assert_eq!(reply.tag, SessionTag::ListReply.code());
    assert_eq!(reply.word_count, 4);
    assert_eq!(&reply.words[..4], &[SessionStatus::Success.code() as u64, 1, 1, 1]);

    let (_, status, _, _) = reply_of(handle_request(&mut state, &request(SessionTag::StatusRequest.code(), &[1], 41)));
    assert_eq!(status.word_count, 7);
    assert_eq!(status.words[0], SessionStatus::Success.code() as u64);
    assert_eq!(status.words[1], 1);
    assert_eq!(status.words[2], SessionInputSource::ServiceControl.code() as u64);
    assert_eq!(status.words[5], 1);
    assert_eq!(status.words[6], 0);

    let (_, missing, _, _) = reply_of(handle_request(&mut state, &request(SessionTag::StatusRequest.code(), &[7], 41)));
    assert_eq!(&missing.words[..7], &[SessionStatus::NotFound.code() as u64, 0, 0, 0, 0, 0, 0]);

    let (_, current, _, _) = reply_of(handle_request(&mut state, &request(CURRENT_SESSION_REQUEST, &[], 42)));
    assert_eq!(current.tag, CURRENT_SESSION_REPLY);
    assert_eq!(&current.words[..3], &[SessionStatus::Success.code() as u64, 1, 0]);

    // Without a reply channel a request is ignored.
    let mut bare = request(SessionTag::ListRequest.code(), &[], 0);
    bare.handle_count = 0;
    assert!(matches!(handle_request(&mut state, &bare), SessionAction::Ignore));
}

#[test]
fn register_and_switch_answer_and_log() {
    let mut state = SessionState::new(0, 9, 800, 600);
    state.desktop_handle = 77;
    let (_, reg, log, _) = reply_of(handle_request(&mut state, &request(REGISTER_SESSION_REQUEST, &[0, NO_SEAT as u64], 50)));
    assert_eq!(reg.tag, REGISTER_SESSION_REPLY);
    assert_eq!(&reg.words[..2], &[SessionStatus::Success.code() as u64, 2]);
    let log = log.expect("registration is logged");
    assert_eq!(log.tag, LogTag::Record.code());
    assert_eq!(log.words[3], LogEvent::SessionReady.code() as u64);
    assert_eq!(log.words[4], 2);

    // The same id again is denied.
    let (_, again, log, _) = reply_of(handle_request(&mut state, &request(REGISTER_SESSION_REQUEST, &[2, NO_SEAT as u64], 50)));
    assert_eq!(&again.words[..2], &[SessionStatus::Denied.code() as u64, 0]);
    assert!(log.is_none());

    // Switching tears the desktop route down and reports both sessions.
    let (_, sw, log, close) = reply_of(handle_request(&mut state, &request(SWITCH_ACTIVE_REQUEST, &[2], 51)));
    assert_eq!(sw.tag, SWITCH_ACTIVE_REPLY);
    assert_eq!(&sw.words[..3], &[SessionStatus::Success.code() as u64, 1, 2]);
    assert_eq!(close, Some(77));
    assert_eq!(state.desktop_handle, INVALID_HANDLE);
    assert_eq!(log.expect("switch is logged").words[3], LogEvent::SessionFocusChanged.code() as u64);

    // Switching to the active session is busy; to an unknown one, not found.
    let (_, busy, _, close) = reply_of(handle_request(&mut state, &request(SWITCH_ACTIVE_REQUEST, &[2], 51)));
    assert_eq!(busy.words[0], SessionStatus::Busy.code() as u64);
    assert_eq!(close, None);
    let (_, unknown, _, _) = reply_of(handle_request(&mut state, &request(SWITCH_ACTIVE_REQUEST, &[9], 51)));
    assert_eq!(unknown.words[0], SessionStatus::NotFound.code() as u64);
}

#[test]
fn focus_requests_follow_isolation() {
    let mut state = SessionState::new(0, 9, 800, 600);
    let (_, ok, log, _) = reply_of(handle_request(&mut state, &request(SessionTag::FocusRequest.code(), &[1, 33], 60)));
    assert_eq!(&ok.words[..2], &[SessionStatus::Success.code() as u64, 33]);
    let log = log.expect("focus change is logged");
    assert_eq!((log.words[4], log.words[5]), (1, 33));
    let (_, unknown, log, _) = reply_of(handle_request(&mut state, &request(SessionTag::FocusRequest.code(), &[4, 33], 60)));
    assert_eq!(&unknown.words[..2], &[SessionStatus::NotFound.code() as u64, 0]);
    assert!(log.is_none());
}

#[test]
fn pointer_axes_scale_and_clamp_onto_the_output() {
    assert_eq!(scale_input_axis(65_535, 1024), 1023);
    assert_eq!(scale_input_axis(0, 1024), 0);
    assert_eq!(scale_input_axis(-5, 1024), 0);
    assert_eq!(scale_input_axis(100_000, 768), 767);
    assert_eq!(scale_input_axis(32_768, 1025), 512);
    assert_eq!(scale_input_axis(500, 0), 0);
    assert_eq!(clamp_axis(-3, 800), 0);
    assert_eq!(clamp_axis(900, 800), 799);
    assert_eq!(clamp_axis(400, 800), 400);
    assert_eq!(clamp_axis(5, 0), 0);
}

#[test]
fn modifiers_and_key_text() {
    let m = update_modifier_state(0, 42, true);
    assert_eq!(m, MOD_SHIFT);
    assert_eq!(keycode_to_text(30, m), Some('A'));
    assert_eq!(keycode_to_text(30, 0), Some('a'));
    assert_eq!(keycode_to_text(2, MOD_SHIFT), Some('!'));
    assert_eq!(keycode_to_text(57, 0), Some(' '));
    assert_eq!(keycode_to_text(99, 0), None);
    let m = update_modifier_state(m, 97, true);
    assert_eq!(m, MOD_SHIFT | MOD_CTRL);
    assert_eq!(update_modifier_state(m, 54, false), MOD_CTRL);
    assert_eq!(update_modifier_state(m, 30, true), m);
}

#[test]
fn backpressure_is_tolerated_other_errors_pass() {
    assert_eq!(tolerate_input_backpressure(Err(Error::Busy)), Ok(()));
    assert_eq!(tolerate_input_backpressure(Err(Error::CapacityExceeded)), Ok(()));
    assert_eq!(tolerate_input_backpressure(Err(Error::NotFound)), Err(Error::NotFound));
    assert_eq!(tolerate_input_backpressure(Ok(())), Ok(()));
}

#[test]
fn moves_coalesce_and_flush_before_other_events() {
    let mut state = SessionState::new(0, 9, 1024, 768);
    let mut pending = false;
    let motion = InputEventInfo { kind: InputEventKind::PointerMotion.code(), code: 0, value0: 65_535, value1: 0, source_id: 0 };
    assert!(route_input_event(&mut state, &motion, &mut pending, true).is_empty());
    assert!(pending);
    assert_eq!((state.pointer_x, state.pointer_y), (1023, 0));
    let delta = InputEventInfo { kind: InputEventKind::PointerDelta.code(), code: 0, value0: -23, value1: 900, source_id: 0 };
    assert!(route_input_event(&mut state, &delta, &mut pending, true).is_empty());
    assert_eq!((state.pointer_x, state.pointer_y), (1000, 767));

    let click = InputEventInfo { kind: InputEventKind::PointerButton.code(), code: InputButton::Left.code(), value0: 1, value1: 0, source_id: 0 };
    let out = route_input_event(&mut state, &click, &mut pending, true);
    assert!(!pending);
    assert_eq!(out.len(), 2);
    assert!(out.iter().all(|m| m.tag == DesktopTag::InputRequest.code() && m.word_count == 4));
    assert_eq!(out[0].words[0], DesktopInputAction::PointerMove.code() as u64);
    assert_eq!((out[0].words[1], out[0].words[2]), (1000, 767));
    assert_eq!(out[1].words[0], DesktopInputAction::PointerDown.code() as u64);

    // A shifted key press sends the key, then the character it types.
    let shift = InputEventInfo { kind: InputEventKind::Key.code(), code: 42, value0: 1, value1: 0, source_id: 0 };
    let out = route_input_event(&mut state, &shift, &mut pending, true);
    assert_eq!(out.len(), 1);
    let key = InputEventInfo { kind: InputEventKind::Key.code(), code: 16, value0: 1, value1: 0, source_id: 0 };
    let out = route_input_event(&mut state, &key, &mut pending, true);
    assert_eq!(out.len(), 2);
    assert_eq!(out[0].words[0], DesktopInputAction::KeyDown.code() as u64);
    assert_eq!(out[0].words[1], 16);
    assert_eq!(out[0].words[2], MOD_SHIFT as u64);
    assert_eq!(out[1].words[0], DesktopInputAction::TextInput.code() as u64);
    assert_eq!(out[1].words[1], 'Q' as u64);

    // Without a desktop route nothing is sent and modifiers stay.
    let release = InputEventInfo { kind: InputEventKind::Key.code(), code: 42, value0: 0, value1: 0, source_id: 0 };
    assert!(route_input_event(&mut state, &release, &mut pending, false).is_empty());
    assert_eq!(state.modifiers, MOD_SHIFT);
}
