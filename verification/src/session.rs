//! Session-service protocol: listing sessions, reading one's status and
//! moving focus. The caller attaches a reply channel (send right) to each
//! request and reads the reply from it.
use vstd::prelude::*;

use crate::abi::{SessionStatus, SessionTag};
use crate::decode::{session_input_source_from_word, session_status_error, session_status_from_word};
use crate::error::{Error, Result};
use crate::message::{has_shape, reply_shape, reply_wf, request1, request2, sends, written, Exchange, RawMessage};
use crate::types::SessionStatusInfo;

verus! {

/// What a session-service reply decodes to when its body is `value`.
pub open spec fn session_result<T>(r: RawMessage, tag: u32, min: u32, value: T) -> Result<T> {
    if !reply_shape(r, tag, min) {
        Err(Error::InvalidArgument)
    } else if session_status_from_word(r.words[0]) == SessionStatus::Success {
        Ok(value)
    } else {
        Err(session_status_error(session_status_from_word(r.words[0])))
    }
}

fn session_check(r: &RawMessage, tag: u32, min: u32) -> (res: Result<()>)
    ensures
        res == session_result(*r, tag, min, ()),
{
    if !has_shape(r, tag, min) {
        return Err(Error::InvalidArgument);
    }
    let status = session_status_from_word(r.words[0]);
    if status == SessionStatus::Success {
        Ok(())
    } else {
        Err(session_status_error(status))
    }
}

/// What a session listing decodes to for room for `cap` ids: the count,
/// `BufferTooSmall` when it exceeds the room or the words present.
pub open spec fn session_list_result(r: RawMessage, cap: nat) -> Result<usize> {
    let count = (r.words[1] as usize) as nat;
    match session_result(r, SessionTag::ListReply.spec_code(), 2, ()) {
        Err(e) => Err(e),
        Ok(_) => if count > cap || r.word_count < 2 + count {
            Err(Error::BufferTooSmall)
        } else {
            Ok(count as usize)
        },
    }
}

/// Step of listing the session ids into `ids`.
pub fn session_list(ids: &mut [u32], reply: Option<&RawMessage>) -> (step: Exchange<usize>)
    requires
        reply_wf(reply),
    ensures
        final(ids)@.len() == old(ids)@.len(),
        reply is None ==> final(ids)@ == old(ids)@ && sends(step, SessionTag::ListRequest.spec_code(), Seq::empty()),
        reply matches Some(r) ==> step == Exchange::Done(session_list_result(*r, old(ids)@.len())),
        reply matches Some(r) ==> (step matches Exchange::Done(Ok(c)) ==> written(old(ids)@, final(ids)@, 0, c as int, |i: int| r.words[2 + i] as u32)),
        reply matches Some(r) ==> (step matches Exchange::Done(Err(_)) ==> final(ids)@ == old(ids)@),
{
    let r = match reply {
        None => return Exchange::Send(RawMessage::empty(SessionTag::ListRequest.code())),
        Some(r) => r,
    };
    match session_check(r, SessionTag::ListReply.code(), 2) {
        Ok(()) => {},
        Err(e) => return Exchange::Done(Err(e)),
    }
    let count = r.words[1] as usize;
    if count > ids.len() || count > 14 || (r.word_count as usize) < 2 + count {
        return Exchange::Done(Err(Error::BufferTooSmall));
    }
    let ghost before = ids@;
    let mut i: usize = 0;
    while i < count
        invariant
            r.wf(),
            count <= 14,
            count <= ids@.len(),
            ids@.len() == before.len(),
            i <= count,
            forall|k: int| 0 <= k < i ==> ids@[k] == r.words[2 + k] as u32,
            forall|k: int| i <= k < ids@.len() ==> ids@[k] == before[k],
        decreases count - i,
    {
        ids[i] = r.words[2 + i] as u32;
        i = i + 1;
    }
    Exchange::Done(Ok(count))
}

/// The session record a status reply carries in words 1 to 4.
pub open spec fn session_info_of(r: RawMessage) -> SessionStatusInfo {
    SessionStatusInfo {
        session_id: r.words[1] as u32,
        input_source: session_input_source_from_word(r.words[2]),
        focused_surface: r.words[3] as u32,
        surface_count: r.words[4] as u32,
    }
}

/// What a session status reply decodes to: `None` for an unknown session.
pub open spec fn session_status_result(r: RawMessage) -> Result<Option<SessionStatusInfo>> {
    let status = session_status_from_word(r.words[0]);
    if !reply_shape(r, SessionTag::StatusReply.spec_code(), 5) {
        Err(Error::InvalidArgument)
    } else if status == SessionStatus::NotFound {
        Ok(None)
    } else if status != SessionStatus::Success {
        Err(session_status_error(status))
    } else {
        Ok(Some(session_info_of(r)))
    }
}

/// Step of reading the status of session `session_id`.
pub fn session_status(session_id: u32, reply: Option<&RawMessage>) -> (step: Exchange<Option<SessionStatusInfo>>)
    ensures
        reply is None ==> sends(step, SessionTag::StatusRequest.spec_code(), seq![session_id as u64]),
        reply matches Some(r) ==> step == Exchange::Done(session_status_result(*r)),
{
    match reply {
        None => Exchange::Send(request1(SessionTag::StatusRequest.code(), session_id as u64)),
        Some(r) => {
            if !has_shape(r, SessionTag::StatusReply.code(), 5) {
                return Exchange::Done(Err(Error::InvalidArgument));
            }
            let status = session_status_from_word(r.words[0]);
            if status == SessionStatus::NotFound {
                return Exchange::Done(Ok(None));
            }
            if status != SessionStatus::Success {
                return Exchange::Done(Err(session_status_error(status)));
            }
            Exchange::Done(Ok(Some(SessionStatusInfo {
                session_id: r.words[1] as u32,
                input_source: session_input_source_from_word(r.words[2]),
                focused_surface: r.words[3] as u32,
                surface_count: r.words[4] as u32,
            })))
        },
    }
}

/// Step of focusing surface `surface_id` of session `session_id`; the
/// outcome is the surface that holds focus afterwards.
pub fn session_focus(session_id: u32, surface_id: u32, reply: Option<&RawMessage>) -> (step: Exchange<u32>)
    ensures
        reply is None ==> sends(step, SessionTag::FocusRequest.spec_code(), seq![session_id as u64, surface_id as u64]),
        reply matches Some(r) ==> step == Exchange::Done(session_result(*r, SessionTag::FocusReply.spec_code(), 2, r.words[1] as u32)),
{
    match reply {
        None => Exchange::Send(request2(SessionTag::FocusRequest.code(), session_id as u64, surface_id as u64)),
        Some(r) => Exchange::Done(
            match session_check(r, SessionTag::FocusReply.code(), 2) {
                Ok(()) => Ok(r.words[1] as u32),
                Err(e) => Err(e),
            },
        ),
    }
}

} // verus!
