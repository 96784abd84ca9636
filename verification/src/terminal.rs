//! Terminal-service protocol: opening, listing and inspecting sessions,
//! and the messages a session exchanges (input, resize, close, output).
//! The caller attaches a reply channel (send right) to each service
//! request and reads the reply from it.
use vstd::prelude::*;
use vstd::string::StringSliceAdditionalSpecFns;

use crate::abi::{TerminalStatus, TerminalTag};
use crate::decode::{terminal_status_error, terminal_status_from_word};
use crate::error::{Error, Result};
use crate::message::{
    bytes_written, has_shape, is_request, packed_words, reply_shape, reply_wf, request1, request4,
    request_with_bytes, sends, unpack_from, unpack_outcome, written, Exchange, Handle, RawMessage,
};

verus! {

/// Geometry of one terminal session.
#[derive(Clone, Copy, Debug, PartialEq, Eq)]
pub struct TerminalSessionStatusInfo {
    pub session_id: u32,
    pub columns: u32,
    pub rows: u32,
    pub width_pixels: u32,
    pub height_pixels: u32,
}

/// What a session-open reply decodes to: the session id, its channel, and
/// its columns and rows.
pub open spec fn terminal_open_result(r: RawMessage) -> Result<(u32, Handle, u32, u32)> {
    let status = terminal_status_from_word(r.words[0]);
    if !reply_shape(r, TerminalTag::SessionOpenReply.spec_code(), 4) {
        Err(Error::InvalidArgument)
    } else if status == TerminalStatus::Success && r.handle_count > 0 {
        Ok((r.words[1] as u32, r.handles[0], r.words[2] as u32, r.words[3] as u32))
    } else {
        Err(terminal_status_error(status))
    }
}

/// Step of opening a terminal session.
pub fn terminal_session_open(reply: Option<&RawMessage>) -> (step: Exchange<(u32, Handle, u32, u32)>)
    ensures
        reply is None ==> sends(step, TerminalTag::SessionOpenRequest.spec_code(), Seq::empty()),
        reply matches Some(r) ==> step == Exchange::Done(terminal_open_result(*r)),
{
    match reply {
        None => Exchange::Send(RawMessage::empty(TerminalTag::SessionOpenRequest.code())),
        Some(r) => {
            if !has_shape(r, TerminalTag::SessionOpenReply.code(), 4) {
                return Exchange::Done(Err(Error::InvalidArgument));
            }
            let status = terminal_status_from_word(r.words[0]);
            if status == TerminalStatus::Success && r.handle_count > 0 {
                Exchange::Done(Ok((r.words[1] as u32, r.handles[0], r.words[2] as u32, r.words[3] as u32)))
            } else {
                Exchange::Done(Err(terminal_status_error(status)))
            }
        },
    }
}

/// What a session listing decodes to for room for `cap` ids.
pub open spec fn terminal_list_result(r: RawMessage, cap: nat) -> Result<usize> {
    let status = terminal_status_from_word(r.words[0]);
    let count = (r.words[1] as usize) as nat;
    if !reply_shape(r, TerminalTag::SessionListReply.spec_code(), 2) {
        Err(Error::InvalidArgument)
    } else if status != TerminalStatus::Success {
        Err(terminal_status_error(status))
    } else if count > cap || r.word_count < 2 + count {
        Err(Error::BufferTooSmall)
    } else {
        Ok(count as usize)
    }
}

/// Step of listing the terminal session ids into `ids`.
pub fn terminal_session_list(ids: &mut [u32], reply: Option<&RawMessage>) -> (step: Exchange<usize>)
    requires
        reply_wf(reply),
    ensures
        final(ids)@.len() == old(ids)@.len(),
        reply is None ==> final(ids)@ == old(ids)@ && sends(step, TerminalTag::SessionListRequest.spec_code(), Seq::empty()),
        reply matches Some(r) ==> step == Exchange::Done(terminal_list_result(*r, old(ids)@.len())),
        reply matches Some(r) ==> (step matches Exchange::Done(Ok(c)) ==> written(old(ids)@, final(ids)@, 0, c as int, |i: int| r.words[2 + i] as u32)),
        reply matches Some(r) ==> (step matches Exchange::Done(Err(_)) ==> final(ids)@ == old(ids)@),
{
    let r = match reply {
        None => return Exchange::Send(RawMessage::empty(TerminalTag::SessionListRequest.code())),
        Some(r) => r,
    };
    if !has_shape(r, TerminalTag::SessionListReply.code(), 2) {
        return Exchange::Done(Err(Error::InvalidArgument));
    }
    let status = terminal_status_from_word(r.words[0]);
    if status != TerminalStatus::Success {
        return Exchange::Done(Err(terminal_status_error(status)));
    }
    let count = r.words[1] as usize;
    if count > ids.len() || count > 14 || (r.word_count as usize) < 2 + count {
        return Exchange::Done(Err(Error::BufferTooSmall));
    }
    let ghost before = ids@;
    let mut i: usize = 0;
    while i < count
        invariant
            r.wf(),
            count <= 14,
            count <= ids@.len(),
            ids@.len() == before.len(),
            i <= count,
            forall|k: int| 0 <= k < i ==> ids@[k] == r.words[2 + k] as u32,
            forall|k: int| i <= k < ids@.len() ==> ids@[k] == before[k],
        decreases count - i,
    {
        ids[i] = r.words[2 + i] as u32;
        i = i + 1;
    }
    Exchange::Done(Ok(count))
}

/// What a session-status reply decodes to: `None` for an unknown session; a
/// success reply shorter than six words reads as `InvalidArgument`.
pub open spec fn terminal_status_result(r: RawMessage) -> Result<Option<TerminalSessionStatusInfo>> {
    let status = terminal_status_from_word(r.words[0]);
    if !reply_shape(r, TerminalTag::SessionStatusReply.spec_code(), 1) {
        Err(Error::InvalidArgument)
    } else if status == TerminalStatus::Success && r.word_count >= 6 {
        Ok(Some(TerminalSessionStatusInfo {
            session_id: r.words[1] as u32,
            columns: r.words[2] as u32,
            rows: r.words[3] as u32,
            width_pixels: r.words[4] as u32,
            height_pixels: r.words[5] as u32,
        }))
    } else if status == TerminalStatus::NotFound {
        Ok(None)
    } else {
        Err(terminal_status_error(status))
    }
}

/// Step of reading the geometry of session `session_id`.
pub fn terminal_session_status(session_id: u32, reply: Option<&RawMessage>) -> (step: Exchange<Option<TerminalSessionStatusInfo>>)
    ensures
        reply is None ==> sends(step, TerminalTag::SessionStatusRequest.spec_code(), seq![session_id as u64]),
        reply matches Some(r) ==> step == Exchange::Done(terminal_status_result(*r)),
{
    match reply {
        None => Exchange::Send(request1(TerminalTag::SessionStatusRequest.code(), session_id as u64)),
        Some(r) => {
            if !has_shape(r, TerminalTag::SessionStatusReply.code(), 1) {
                return Exchange::Done(Err(Error::InvalidArgument));
            }
            let status = terminal_status_from_word(r.words[0]);
            if status == TerminalStatus::Success && r.word_count >= 6 {
                Exchange::Done(Ok(Some(TerminalSessionStatusInfo {
                    session_id: r.words[1] as u32,
                    columns: r.words[2] as u32,
                    rows: r.words[3] as u32,
                    width_pixels: r.words[4] as u32,
                    height_pixels: r.words[5] as u32,
                })))
            } else if status == TerminalStatus::NotFound {
                Exchange::Done(Ok(None))
            } else {
                Exchange::Done(Err(terminal_status_error(status)))
            }
        },
    }
}

/// The input message of a session: the bytes' length, then the bytes;
/// `BufferTooSmall` for more than one message carries.
pub fn terminal_session_send_input(bytes: &[u8]) -> (res: Result<RawMessage>)
    ensures
        bytes@.len() > 120 ==> res == Err::<RawMessage, Error>(Error::BufferTooSmall),
        bytes@.len() <= 120 ==> (res matches Ok(m)
            && is_request(m, TerminalTag::SessionInput.spec_code(), seq![bytes@.len() as u64] + packed_words(bytes@))),
{
    if bytes.len() > 120 {
        return Err(Error::BufferTooSmall);
    }
    let head: [u64; 1] = [bytes.len() as u64];
    assert(head@ =~= seq![bytes@.len() as u64]);
    Ok(request_with_bytes(TerminalTag::SessionInput.code(), head.as_slice(), bytes))
}

/// The input message that carries `text` (see `terminal_session_send_input`).
pub fn terminal_session_send_text(text: &str) -> (res: Result<RawMessage>)
    ensures
        text.spec_bytes().len() > 120 ==> res == Err::<RawMessage, Error>(Error::BufferTooSmall),
        text.spec_bytes().len() <= 120 ==> (res matches Ok(m)
            && is_request(m, TerminalTag::SessionInput.spec_code(), seq![text.spec_bytes().len() as u64] + packed_words(text.spec_bytes()))),
{
    terminal_session_send_input(text.as_bytes())
}

/// The resize message of a session.
pub fn terminal_session_resize(columns: u32, rows: u32, width_pixels: u32, height_pixels: u32) -> (m: RawMessage)
    ensures
        is_request(m, TerminalTag::SessionResize.spec_code(), seq![columns as u64, rows as u64, width_pixels as u64, height_pixels as u64]),
{
    request4(TerminalTag::SessionResize.code(), columns as u64, rows as u64, width_pixels as u64, height_pixels as u64)
}

/// The close message of a session.
pub fn terminal_session_close() -> (m: RawMessage)
    ensures
        is_request(m, TerminalTag::SessionClose.spec_code(), Seq::empty()),
{
    RawMessage::empty(TerminalTag::SessionClose.code())
}

/// What a non-blocking receive on a session decodes to for a buffer of
/// `cap` bytes: output's length, `None` when nothing was queued, `NotFound`
/// once the session closed.
pub open spec fn terminal_receive_result(received: Result<RawMessage>, cap: nat) -> Result<Option<usize>> {
    match received {
        Ok(m) => if m.tag == TerminalTag::SessionOutput.spec_code() && m.word_count >= 1 {
            match unpack_outcome(m, 1, (m.words[0] as usize) as nat, cap) {
                Err(e) => Err(e),
                Ok(_) => Ok(Some(m.words[0] as usize)),
            }
        } else if m.tag == TerminalTag::SessionClosed.spec_code() {
            Err(Error::NotFound)
        } else {
            Err(Error::InvalidArgument)
        },
        Err(Error::QueueEmpty) => Ok(None),
        Err(e) => Err(e),
    }
}

/// Decodes the outcome of a non-blocking receive on a session into
/// `buffer`.
pub fn terminal_session_receive_nonblocking(received: Result<&RawMessage>, buffer: &mut [u8]) -> (res: Result<Option<usize>>)
    requires
        received matches Ok(m) ==> m.wf(),
    ensures
        res == terminal_receive_result(match received { Ok(m) => Ok(*m), Err(e) => Err(e) }, old(buffer)@.len()),
        final(buffer)@.len() == old(buffer)@.len(),
        received matches Ok(m) ==> (res matches Ok(Some(n)) ==> bytes_written(old(buffer)@, final(buffer)@, *m, 1, n as nat)),
        !(res matches Ok(Some(_))) ==> final(buffer)@ == old(buffer)@,
{
    match received {
        Ok(m) => {
            if m.tag == TerminalTag::SessionOutput.code() && m.word_count >= 1 {
                let n = m.words[0] as usize;
                match unpack_from(m, 1, n, buffer) {
                    Ok(()) => Ok(Some(n)),
                    Err(e) => Err(e),
                }
            } else if m.tag == TerminalTag::SessionClosed.code() {
                Err(Error::NotFound)
            } else {
                Err(Error::InvalidArgument)
            }
        },
        Err(Error::QueueEmpty) => Ok(None),
        Err(e) => Err(e),
    }
}

} // verus!
