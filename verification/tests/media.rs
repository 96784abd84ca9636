use serviceos_runtime::abi::{
    AudioEndpointBackend, AudioEndpointState, AudioStatus, AudioStreamDirection, AudioStreamState, AudioTag, DisplayOutputState,
    DisplayPixelFormat, GraphicsStatus, GraphicsTag, SurfaceTag,
};
use serviceos_runtime::audio::{
    audio_capture_stream_open, audio_service_endpoint_status, audio_stream_close, audio_stream_list, audio_stream_open,
    audio_stream_status, kernel_audio_endpoint_play_tone, kernel_audio_endpoint_status, AudioEndpointInfo, AudioToneRequest,
};
use serviceos_runtime::devices::display_damage_words;
use serviceos_runtime::error::Error;
use serviceos_runtime::graphics::{
    graphics_output_status, graphics_surface_create, graphics_surface_list, graphics_surface_status, surface_attach_buffer,
    surface_close, surface_set_geometry_async, surface_set_label,
};
use serviceos_runtime::message::{Exchange, PageCursor, RawMessage, INVALID_HANDLE};
use serviceos_runtime::rights;
use serviceos_runtime::types::AudioStreamInfo;

fn reply(tag: u32, words: &[u64]) -> RawMessage {
    let mut m = RawMessage::empty(tag);
    m.word_count = words.len() as u32;
    m.words[..words.len()].copy_from_slice(words);
    m
}

#[test]
fn endpoint_status_distinguishes_missing_from_errors() {
    let mut words = vec![0u64; 12];
    words[1] = 2;
    words[2] = AudioEndpointBackend::PcSpeaker.code() as u64;
    words[4] = AudioEndpointState::Active.code() as u64;
    words[6] = 48_000;
    words[11] = 9;
    match audio_service_endpoint_status(2, Some(&reply(AudioTag::EndpointStatusReply.code(), &words))) {
        Exchange::Done(Ok(Some(info))) => {
            assert_eq!(info.index, 2);
            assert_eq!(info.backend, AudioEndpointBackend::PcSpeaker);
            assert_eq!(info.state, AudioEndpointState::Active);
            assert_eq!(info.nominal_rate_hz, 48_000);
            assert_eq!(info.play_count, 9);
        }
        other => panic!("unexpected {:?}", other),
    }
    words[0] = AudioStatus::NotFound.code() as u64;
    assert_eq!(audio_service_endpoint_status(2, Some(&reply(AudioTag::EndpointStatusReply.code(), &words))), Exchange::Done(Ok(None)));
    words[0] = AudioStatus::Busy.code() as u64;
    assert_eq!(audio_service_endpoint_status(2, Some(&reply(AudioTag::EndpointStatusReply.code(), &words))), Exchange::Done(Err(Error::Busy)));
}

#[test]
fn stream_open_needs_a_handle_and_close_accepts_closed() {
    let mut ok = reply(AudioTag::StreamOpenReply.code(), &[0]);
    assert_eq!(audio_stream_open(AudioStreamDirection::Playback, 1, Some(&ok)), Exchange::Done(Err(Error::InvalidArgument)));
    ok.handle_count = 1;
    ok.handles[0] = 33;
    assert_eq!(audio_stream_open(AudioStreamDirection::Playback, 1, Some(&ok)), Exchange::Done(Ok(33)));
    let closed = reply(AudioTag::StreamCloseReply.code(), &[AudioStatus::Closed.code() as u64]);
    assert_eq!(audio_stream_close(Some(&closed)), Exchange::Done(Ok(())));
    let denied = reply(AudioTag::StreamCloseReply.code(), &[AudioStatus::Denied.code() as u64]);
    assert_eq!(audio_stream_close(Some(&denied)), Exchange::Done(Err(Error::PermissionDenied)));
    assert_eq!(audio_capture_stream_open(1), Err(Error::Unsupported));
}

#[test]
fn stream_listing_and_status() {
    let blank = AudioStreamInfo { slot: 0, direction: AudioStreamDirection::Playback, state: AudioStreamState::Idle, session_id: 0, endpoint_index: 0, frequency_hz: 0, remaining_ticks: 0 };
    let mut streams = [blank; 2];
    let mut cursor = PageCursor { start: 0, filled: 0 };
    let page = reply(AudioTag::StreamListReply.code(), &[0, 1, 0, 4, 0, AudioStreamState::Active.code() as u64, 7, 0, 440]);
    assert_eq!(audio_stream_list(&mut streams, &mut cursor, Some(&page)), Exchange::Done(Ok(1)));
    assert_eq!(streams[0].slot, 4);
    assert_eq!(streams[0].state, AudioStreamState::Active);
    assert_eq!(streams[0].frequency_hz, 440);
    let status = reply(AudioTag::StreamStatusReply.code(), &[0, 4, 0, 1, 7, 0, 880, 25]);
    match audio_stream_status(Some(&status)) {
        Exchange::Done(Ok(info)) => assert_eq!((info.frequency_hz, info.remaining_ticks), (880, 25)),
        other => panic!("unexpected {:?}", other),
    }
}

#[test]
fn kernel_endpoint_values() {
    let info = AudioEndpointInfo {
        backend: AudioEndpointBackend::PcSpeaker.code(), direction: 0, state: AudioEndpointState::Idle.code(), capabilities: 3,
        nominal_rate_hz: 1, channels: 1, min_frequency_hz: 20, max_frequency_hz: 20_000, current_frequency_hz: 0, reserved: 0, play_count: 5,
    };
    let status = kernel_audio_endpoint_status(&info);
    assert_eq!(status.index, 0);
    assert_eq!(status.backend, AudioEndpointBackend::PcSpeaker);
    assert_eq!(status.max_frequency_hz, 20_000);
    assert_eq!(kernel_audio_endpoint_play_tone(440, 10), AudioToneRequest { frequency_hz: 440, duration_ticks: 10, volume: u16::MAX, flags: 0 });
}

#[test]
fn graphics_output_and_surface_replies() {
    let mut words = vec![0u64; 12];
    words[3] = DisplayOutputState::Connected.code() as u64;
    words[4] = DisplayPixelFormat::Bgrx8888.code() as u64;
    words[5] = 1024;
    words[6] = 768;
    words[11] = 3;
    match graphics_output_status(0, Some(&reply(GraphicsTag::OutputStatusReply.code(), &words))) {
        Exchange::Done(Ok(Some(out))) => {
            assert_eq!((out.width, out.height, out.surface_count), (1024, 768, 3));
            assert_eq!(out.pixel_format, DisplayPixelFormat::Bgrx8888);
        }
        other => panic!("unexpected {:?}", other),
    }
    let mut surface = vec![0u64, 8, 0, 1, (-5i64) as u64, 6, 100, 50, 2, 0xff00ff, 1];
    match graphics_surface_status(8, Some(&reply(GraphicsTag::SurfaceStatusReply.code(), &surface))) {
        Exchange::Done(Ok(Some(s))) => {
            assert_eq!((s.x, s.y, s.width, s.fill_rgb, s.visible), (-5, 6, 100, 0xff00ff, true));
            assert_eq!(s.active_buffer_slot, None);
        }
        other => panic!("unexpected {:?}", other),
    }
    surface[0] = GraphicsStatus::NotFound.code() as u64;
    assert_eq!(graphics_surface_status(8, Some(&reply(GraphicsTag::SurfaceStatusReply.code(), &surface))), Exchange::Done(Ok(None)));
}

#[test]
fn surface_create_list_and_requests() {
    match graphics_surface_create(1, -2, 3, 4, 5, 6, 7, true, None) {
        Exchange::Send(m) => assert_eq!(&m.words[..8], &[1, (-2i64) as u64, 3, 4, 5, 6, 7, 1]),
        other => panic!("unexpected {:?}", other),
    }
    let mut created = reply(GraphicsTag::SurfaceCreateReply.code(), &[0, 12]);
    assert_eq!(graphics_surface_create(1, 0, 0, 1, 1, 0, 0, false, Some(&created)), Exchange::Done(Err(Error::InvalidArgument)));
    created.handle_count = 1;
    created.handles[0] = 70;
    assert_eq!(graphics_surface_create(1, 0, 0, 1, 1, 0, 0, false, Some(&created)), Exchange::Done(Ok((12, 70))));

    let mut ids = [0u32; 3];
    let list = reply(GraphicsTag::SurfaceListReply.code(), &[0, 2, 5, 9]);
    assert_eq!(graphics_surface_list(&mut ids, Some(&list)), Exchange::Done(Ok(2)));
    assert_eq!(ids, [5, 9, 0]);
    let too_many = reply(GraphicsTag::SurfaceListReply.code(), &[0, 4, 1, 2, 3, 4]);
    assert_eq!(graphics_surface_list(&mut ids, Some(&too_many)), Exchange::Done(Err(Error::BufferTooSmall)));

    let geometry = surface_set_geometry_async(-1, 2, 3, 4, 5);
    assert_eq!(geometry.tag, SurfaceTag::SetGeometryRequest.code());
    assert_eq!(&geometry.words[..5], &[u64::MAX, 2, 3, 4, 5]);
    assert_eq!(surface_close().tag, SurfaceTag::CloseRequest.code());
    let long = "z".repeat(89);
    assert_eq!(surface_set_label(0, 0, 0, 0, &long, None), Exchange::Done(Err(Error::BufferTooSmall)));
    match surface_set_label(1, 2, 3, 4, &long[..88], None) {
        Exchange::Send(m) => assert_eq!((m.word_count, m.words[4]), (16, 88)),
        other => panic!("unexpected {:?}", other),
    }
    match surface_attach_buffer(55, 8, 4, 8, None) {
        Exchange::Send(m) => {
            assert_eq!(m.handle_count, 2);
            assert_eq!((m.handles[0], m.handles[1], m.handle_rights[1]), (INVALID_HANDLE, 55, rights::READ));
            assert_eq!(&m.words[..3], &[8, 4, 8]);
        }
        other => panic!("unexpected {:?}", other),
    }
}

#[test]
fn damage_words_pack_position_and_size_halves() {
    let (position, size) = display_damage_words(-1, 2, 640, 480);
    assert_eq!(position, (2u64 << 32) | 0xffff_ffff);
    assert_eq!(size, (480u64 << 32) | 640);
}
