//! Audio protocol: the audio service's endpoints and streams, and the
//! values exchanged with a kernel audio endpoint.
use vstd::prelude::*;

use crate::abi::{AudioStatus, AudioStreamDirection, AudioTag};
use crate::decode::{
    audio_endpoint_backend_from_word, audio_endpoint_direction_from_word, audio_endpoint_state_from_word,
    audio_status_error, audio_status_from_word, audio_stream_direction_from_word, audio_stream_state_from_word,
};
use crate::error::{Error, Result};
use crate::message::{
    has_shape, page_count, page_count_of, reply_shape, reply_wf, request1, request2, sends, written, Exchange,
    Handle, PageCursor, RawMessage,
};
use crate::types::{AudioEndpointStatusInfo, AudioStreamInfo};

verus! {

/// What an audio-service reply decodes to when its body is `value`:
/// `InvalidArgument` for a reply of the wrong tag or too few words, the
/// error of a status other than success, else `value`.
pub open spec fn audio_result<T>(r: RawMessage, tag: u32, min: u32, value: T) -> Result<T> {
    if !reply_shape(r, tag, min) {
        Err(Error::InvalidArgument)
    } else if audio_status_from_word(r.words[0]) == AudioStatus::Success {
        Ok(value)
    } else {
        Err(audio_status_error(audio_status_from_word(r.words[0])))
    }
}

fn audio_check(r: &RawMessage, tag: u32, min: u32) -> (res: Result<()>)
    ensures
        res == audio_result(*r, tag, min, ()),
{
    if !has_shape(r, tag, min) {
        return Err(Error::InvalidArgument);
    }
    let status = audio_status_from_word(r.words[0]);
    if status == AudioStatus::Success {
        Ok(())
    } else {
        Err(audio_status_error(status))
    }
}

/// Step of asking the audio service how many endpoints it has.
pub fn audio_service_endpoint_count(reply: Option<&RawMessage>) -> (step: Exchange<usize>)
    ensures
        reply is None ==> sends(step, AudioTag::EndpointListRequest.spec_code(), Seq::empty()),
        reply matches Some(r) ==> step == Exchange::Done(audio_result(*r, AudioTag::EndpointListReply.spec_code(), 2, r.words[1] as usize)),
{
    match reply {
        None => Exchange::Send(RawMessage::empty(AudioTag::EndpointListRequest.code())),
        Some(r) => Exchange::Done(
            match audio_check(r, AudioTag::EndpointListReply.code(), 2) {
                Ok(()) => Ok(r.words[1] as usize),
                Err(e) => Err(e),
            },
        ),
    }
}

/// The endpoint status an endpoint-status reply carries in words 1 to 11.
pub open spec fn endpoint_status_of(r: RawMessage) -> AudioEndpointStatusInfo {
    AudioEndpointStatusInfo {
        index: r.words[1] as u32,
        backend: audio_endpoint_backend_from_word(r.words[2]),
        direction: audio_endpoint_direction_from_word(r.words[3]),
        state: audio_endpoint_state_from_word(r.words[4]),
        capabilities: r.words[5] as u32,
        nominal_rate_hz: r.words[6] as u32,
        channels: r.words[7] as u32,
        min_frequency_hz: r.words[8] as u32,
        max_frequency_hz: r.words[9] as u32,
        current_frequency_hz: r.words[10] as u32,
        play_count: r.words[11],
    }
}

/// What an endpoint-status reply decodes to: `None` when the service has no
/// endpoint at that index.
pub open spec fn endpoint_status_result(r: RawMessage) -> Result<Option<AudioEndpointStatusInfo>> {
    let status = audio_status_from_word(r.words[0]);
    if !reply_shape(r, AudioTag::EndpointStatusReply.spec_code(), 12) {
        Err(Error::InvalidArgument)
    } else if status == AudioStatus::NotFound {
        Ok(None)
    } else if status != AudioStatus::Success {
        Err(audio_status_error(status))
    } else {
        Ok(Some(endpoint_status_of(r)))
    }
}

/// Step of reading the status of the audio service's endpoint `index`.
pub fn audio_service_endpoint_status(index: usize, reply: Option<&RawMessage>) -> (step: Exchange<Option<AudioEndpointStatusInfo>>)
    ensures
        reply is None ==> sends(step, AudioTag::EndpointStatusRequest.spec_code(), seq![index as u64]),
        reply matches Some(r) ==> step == Exchange::Done(endpoint_status_result(*r)),
{
    let r = match reply {
        None => return Exchange::Send(request1(AudioTag::EndpointStatusRequest.code(), index as u64)),
        Some(r) => r,
    };
    if !has_shape(r, AudioTag::EndpointStatusReply.code(), 12) {
        return Exchange::Done(Err(Error::InvalidArgument));
    }
    let status = audio_status_from_word(r.words[0]);
    if status == AudioStatus::NotFound {
        return Exchange::Done(Ok(None));
    }
    if status != AudioStatus::Success {
        return Exchange::Done(Err(audio_status_error(status)));
    }
    Exchange::Done(Ok(Some(AudioEndpointStatusInfo {
        index: r.words[1] as u32,
        backend: audio_endpoint_backend_from_word(r.words[2]),
        direction: audio_endpoint_direction_from_word(r.words[3]),
        state: audio_endpoint_state_from_word(r.words[4]),
        capabilities: r.words[5] as u32,
        nominal_rate_hz: r.words[6] as u32,
        channels: r.words[7] as u32,
        min_frequency_hz: r.words[8] as u32,
        max_frequency_hz: r.words[9] as u32,
        current_frequency_hz: r.words[10] as u32,
        play_count: r.words[11],
    })))
}

/// What a stream-open reply decodes to: the stream's handle, the first one
/// the reply carries; `InvalidArgument` when it carries none.
pub open spec fn stream_open_result(r: RawMessage) -> Result<Handle> {
    match audio_result(r, AudioTag::StreamOpenReply.spec_code(), 1, ()) {
        Err(e) => Err(e),
        Ok(_) => if r.handle_count < 1 { Err(Error::InvalidArgument) } else { Ok(r.handles[0]) },
    }
}

/// Step of opening an audio stream in `direction` for session
/// `session_id`.
pub fn audio_stream_open(direction: AudioStreamDirection, session_id: u32, reply: Option<&RawMessage>) -> (step: Exchange<Handle>)
    ensures
        reply is None ==> sends(step, AudioTag::StreamOpenRequest.spec_code(), seq![direction.spec_code() as u64, session_id as u64]),
        reply matches Some(r) ==> step == Exchange::Done(stream_open_result(*r)),
{
    let r = match reply {
        None => return Exchange::Send(request2(AudioTag::StreamOpenRequest.code(), direction.code() as u64, session_id as u64)),
        Some(r) => r,
    };
    match audio_check(r, AudioTag::StreamOpenReply.code(), 1) {
        Ok(()) => {},
        Err(e) => return Exchange::Done(Err(e)),
    }
    if r.handle_count < 1 {
        return Exchange::Done(Err(Error::InvalidArgument));
    }
    Exchange::Done(Ok(r.handles[0]))
}

/// The stream record of a listing page, in the six words at `b`; a listing
/// carries no remaining time.
pub open spec fn stream_entry(r: RawMessage, b: int) -> AudioStreamInfo {
    AudioStreamInfo {
        slot: r.words[b] as u32,
        direction: audio_stream_direction_from_word(r.words[b + 1]),
        state: audio_stream_state_from_word(r.words[b + 2]),
        session_id: r.words[b + 3] as u32,
        endpoint_index: r.words[b + 4] as u32,
        frequency_hz: r.words[b + 5] as u32,
        remaining_ticks: 0,
    }
}

/// Step of listing the audio service's streams into `streams`, one page at
/// a time. Called without a reply it restarts at cursor zero; each page's
/// entries follow those already filled, and the listing ends with the total
/// when a page is empty or its next cursor does not advance.
pub fn audio_stream_list(streams: &mut [AudioStreamInfo], cursor: &mut PageCursor, reply: Option<&RawMessage>) -> (step: Exchange<usize>)
    requires
        reply_wf(reply),
        reply is Some ==> old(cursor).filled <= old(streams)@.len(),
    ensures
        final(streams)@.len() == old(streams)@.len(),
        reply is None ==> *final(cursor) == (PageCursor { start: 0, filled: 0 }) && final(streams)@ == old(streams)@
            && sends(step, AudioTag::StreamListRequest.spec_code(), seq![0u64]),
        reply matches Some(r) ==> audio_result(*r, AudioTag::StreamListReply.spec_code(), 3, ()) matches Err(e)
            ==> step == Exchange::<usize>::Done(Err(e)) && final(streams)@ == old(streams)@,
        reply matches Some(r) ==> audio_result(*r, AudioTag::StreamListReply.spec_code(), 3, ()) is Ok
            && page_count(*r, old(cursor).filled as nat, old(streams)@.len(), 6) is Err
            ==> step == Exchange::<usize>::Done(Err(Error::BufferTooSmall)) && final(streams)@ == old(streams)@,
        reply matches Some(r) ==> (audio_result(*r, AudioTag::StreamListReply.spec_code(), 3, ()) is Ok
            ==> (page_count(*r, old(cursor).filled as nat, old(streams)@.len(), 6) matches Ok(count) ==> {
                let filled = old(cursor).filled + count;
                let next = r.words[2] as usize;
                &&& written(old(streams)@, final(streams)@, old(cursor).filled as int, count as int, |i: int| stream_entry(*r, 3 + i * 6))
                &&& final(cursor).filled == filled
                &&& (count == 0 || next <= old(cursor).start) ==> step == Exchange::<usize>::Done(Ok(filled as usize))
                &&& !(count == 0 || next <= old(cursor).start) ==> final(cursor).start == next
                    && sends(step, AudioTag::StreamListRequest.spec_code(), seq![next as u64])
            })),
{
    let r = match reply {
        None => {
            *cursor = PageCursor { start: 0, filled: 0 };
            return Exchange::Send(request1(AudioTag::StreamListRequest.code(), 0));
        },
        Some(r) => r,
    };
    match audio_check(r, AudioTag::StreamListReply.code(), 3) {
        Ok(()) => {},
        Err(e) => return Exchange::Done(Err(e)),
    }
    let count = match page_count_of(r, cursor.filled, streams.len(), 6) {
        Ok(c) => c,
        Err(e) => return Exchange::Done(Err(e)),
    };
    let filled = cursor.filled;
    let ghost before = streams@;
    let mut i: usize = 0;
    while i < count
        invariant
            r.wf(),
            3 + count * 6 == r.word_count,
            filled + count <= streams.len(),
            streams@.len() == before.len(),
            i <= count,
            forall|k: int| filled <= k < filled + i ==> streams@[k] == stream_entry(*r, 3 + (k - filled) * 6),
            forall|k: int| 0 <= k < streams@.len() && !(filled <= k < filled + i) ==> streams@[k] == before[k],
        decreases count - i,
    {
        let base = 3 + i * 6;
        streams[filled + i] = AudioStreamInfo {
            slot: r.words[base] as u32,
            direction: audio_stream_direction_from_word(r.words[base + 1]),
            state: audio_stream_state_from_word(r.words[base + 2]),
            session_id: r.words[base + 3] as u32,
            endpoint_index: r.words[base + 4] as u32,
            frequency_hz: r.words[base + 5] as u32,
            remaining_ticks: 0,
        };
        i = i + 1;
    }
    let next = r.words[2] as usize;
    let start = cursor.start;
    cursor.filled = filled + count;
    if count == 0 || next <= start {
        return Exchange::Done(Ok(filled + count));
    }
    cursor.start = next;
    Exchange::Send(request1(AudioTag::StreamListRequest.code(), next as u64))
}

/// The stream record a stream-status reply carries in words 1 to 7 (the
/// remaining time is read from word 7 whatever the word count says).
pub open spec fn stream_status_of(r: RawMessage) -> AudioStreamInfo {
    AudioStreamInfo {
        slot: r.words[1] as u32,
        direction: audio_stream_direction_from_word(r.words[2]),
        state: audio_stream_state_from_word(r.words[3]),
        session_id: r.words[4] as u32,
        endpoint_index: r.words[5] as u32,
        frequency_hz: r.words[6] as u32,
        remaining_ticks: r.words[7],
    }
}

/// Step of reading a stream's status (the request goes to the stream's own
/// handle).
pub fn audio_stream_status(reply: Option<&RawMessage>) -> (step: Exchange<AudioStreamInfo>)
    ensures
        reply is None ==> sends(step, AudioTag::StreamStatusRequest.spec_code(), Seq::empty()),
        reply matches Some(r) ==> step == Exchange::Done(audio_result(*r, AudioTag::StreamStatusReply.spec_code(), 7, stream_status_of(*r))),
{
    match reply {
        None => Exchange::Send(RawMessage::empty(AudioTag::StreamStatusRequest.code())),
        Some(r) => Exchange::Done(
            match audio_check(r, AudioTag::StreamStatusReply.code(), 7) {
                Ok(()) => Ok(AudioStreamInfo {
                    slot: r.words[1] as u32,
                    direction: audio_stream_direction_from_word(r.words[2]),
                    state: audio_stream_state_from_word(r.words[3]),
                    session_id: r.words[4] as u32,
                    endpoint_index: r.words[5] as u32,
                    frequency_hz: r.words[6] as u32,
                    remaining_ticks: r.words[7],
                }),
                Err(e) => Err(e),
            },
        ),
    }
}

/// Step of playing a tone of `frequency_hz` for `duration_ms` on a stream.
pub fn audio_stream_play_tone(frequency_hz: u32, duration_ms: u32, reply: Option<&RawMessage>) -> (step: Exchange<()>)
    ensures
        reply is None ==> sends(step, AudioTag::StreamPlayToneRequest.spec_code(), seq![frequency_hz as u64, duration_ms as u64]),
        reply matches Some(r) ==> step == Exchange::Done(audio_result(*r, AudioTag::StreamPlayToneReply.spec_code(), 1, ())),
{
    match reply {
        None => Exchange::Send(request2(AudioTag::StreamPlayToneRequest.code(), frequency_hz as u64, duration_ms as u64)),
        Some(r) => Exchange::Done(audio_check(r, AudioTag::StreamPlayToneReply.code(), 1)),
    }
}

/// What a stream-close reply decodes to: a stream already closed counts as
/// closed.
pub open spec fn stream_close_result(r: RawMessage) -> Result<()> {
    let status = audio_status_from_word(r.words[0]);
    if !reply_shape(r, AudioTag::StreamCloseReply.spec_code(), 1) {
        Err(Error::InvalidArgument)
    } else if status != AudioStatus::Success && status != AudioStatus::Closed {
        Err(audio_status_error(status))
    } else {
        Ok(())
    }
}

/// Step of closing a stream.
pub fn audio_stream_close(reply: Option<&RawMessage>) -> (step: Exchange<()>)
    ensures
        reply is None ==> sends(step, AudioTag::StreamCloseRequest.spec_code(), Seq::empty()),
        reply matches Some(r) ==> step == Exchange::Done(stream_close_result(*r)),
{
    let r = match reply {
        None => return Exchange::Send(RawMessage::empty(AudioTag::StreamCloseRequest.code())),
        Some(r) => r,
    };
    if !has_shape(r, AudioTag::StreamCloseReply.code(), 1) {
        return Exchange::Done(Err(Error::InvalidArgument));
    }
    let status = audio_status_from_word(r.words[0]);
    if status != AudioStatus::Success && status != AudioStatus::Closed {
        return Exchange::Done(Err(audio_status_error(status)));
    }
    Exchange::Done(Ok(()))
}

/// What the kernel reports of an audio endpoint.
#[derive(Clone, Copy, Debug, Eq, PartialEq)]
pub struct AudioEndpointInfo {
    pub backend: u32,
    pub direction: u32,
    pub state: u32,
    pub capabilities: u32,
    pub nominal_rate_hz: u32,
    pub channels: u32,
    pub min_frequency_hz: u32,
    pub max_frequency_hz: u32,
    pub current_frequency_hz: u32,
    pub reserved: u32,
    pub play_count: u64,
}

/// A tone for a kernel audio endpoint.
#[derive(Clone, Copy, Debug, Eq, PartialEq)]
pub struct AudioToneRequest {
    pub frequency_hz: u32,
    pub duration_ticks: u32,
    pub volume: u16,
    pub flags: u32,
}

/// The endpoint status of a kernel audio endpoint, from what the kernel
/// reports of it; a kernel endpoint has index zero.
pub fn kernel_audio_endpoint_status(info: &AudioEndpointInfo) -> (s: AudioEndpointStatusInfo)
    ensures
        s == (AudioEndpointStatusInfo {
            index: 0,
            backend: audio_endpoint_backend_from_word(info.backend as u64),
            direction: audio_endpoint_direction_from_word(info.direction as u64),
            state: audio_endpoint_state_from_word(info.state as u64),
            capabilities: info.capabilities,
            nominal_rate_hz: info.nominal_rate_hz,
            channels: info.channels,
            min_frequency_hz: info.min_frequency_hz,
            max_frequency_hz: info.max_frequency_hz,
            current_frequency_hz: info.current_frequency_hz,
            play_count: info.play_count,
        }),
{
    AudioEndpointStatusInfo {
        index: 0,
        backend: audio_endpoint_backend_from_word(info.backend as u64),
        direction: audio_endpoint_direction_from_word(info.direction as u64),
        state: audio_endpoint_state_from_word(info.state as u64),
        capabilities: info.capabilities,
        nominal_rate_hz: info.nominal_rate_hz,
        channels: info.channels,
        min_frequency_hz: info.min_frequency_hz,
        max_frequency_hz: info.max_frequency_hz,
        current_frequency_hz: info.current_frequency_hz,
        play_count: info.play_count,
    }
}

/// The tone handed to a kernel audio endpoint: the given frequency and
/// duration at full volume, with no flags.
pub fn kernel_audio_endpoint_play_tone(frequency_hz: u32, duration_ticks: u32) -> (t: AudioToneRequest)
    ensures
        t == (AudioToneRequest { frequency_hz, duration_ticks, volume: u16::MAX, flags: 0 }),
{
    AudioToneRequest { frequency_hz, duration_ticks, volume: u16::MAX, flags: 0 }
}

/// Opening a capture stream: capture is not available, so this always
/// fails with `Unsupported`.
pub fn audio_capture_stream_open(session_id: u32) -> (r: Result<Handle>)
    ensures
        r == Err::<Handle, Error>(Error::Unsupported),
{
    Err(Error::Unsupported)
}

} // verus!
