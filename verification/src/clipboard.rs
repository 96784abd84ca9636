//! Clipboard-service protocol: write, read, history and activation.
use vstd::prelude::*;

use crate::abi::{ClipboardStatus, ClipboardTag};
use crate::decode::{clipboard_status_error, clipboard_status_from_word};
use crate::error::{Error, Result};
use crate::message::{
    bytes_written, has_shape, message_bytes, packed_words, reply_shape, reply_wf, request1,
    request_with_bytes, sends, unpack_from, unpack_outcome, Exchange, RawMessage,
};
use crate::types::ClipboardHistoryEntry;

verus! {

/// What a clipboard reply that carries only a status decodes to.
pub open spec fn clipboard_result(r: RawMessage, tag: u32) -> Result<()> {
    if !reply_shape(r, tag, 1) {
        Err(Error::InvalidArgument)
    } else if clipboard_status_from_word(r.words[0]) == ClipboardStatus::Success {
        Ok(())
    } else {
        Err(clipboard_status_error(clipboard_status_from_word(r.words[0])))
    }
}

fn clipboard_check(r: &RawMessage, tag: u32) -> (res: Result<()>)
    ensures
        res == clipboard_result(*r, tag),
{
    if !has_shape(r, tag, 1) {
        return Err(Error::InvalidArgument);
    }
    match clipboard_status_from_word(r.words[0]) {
        ClipboardStatus::Success => Ok(()),
        status => Err(clipboard_status_error(status)),
    }
}

/// Step of placing `bytes` on the clipboard; `BufferTooSmall` for more
/// bytes than one request carries.
pub fn clipboard_write(bytes: &[u8], reply: Option<&RawMessage>) -> (step: Exchange<()>)
    ensures
        reply is None && bytes@.len() > 120 ==> step == Exchange::<()>::Done(Err(Error::BufferTooSmall)),
        reply is None && bytes@.len() <= 120 ==> sends(step, ClipboardTag::WriteRequest.spec_code(), seq![bytes@.len() as u64] + packed_words(bytes@)),
        reply matches Some(r) ==> step == Exchange::Done(clipboard_result(*r, ClipboardTag::WriteReply.spec_code())),
{
    match reply {
        None => {
            if bytes.len() > 120 {
                return Exchange::Done(Err(Error::BufferTooSmall));
            }
            let head: [u64; 1] = [bytes.len() as u64];
            assert(head@ =~= seq![bytes@.len() as u64]);
            Exchange::Send(request_with_bytes(ClipboardTag::WriteRequest.code(), head.as_slice(), bytes))
        },
        Some(r) => Exchange::Done(clipboard_check(r, ClipboardTag::WriteReply.code())),
    }
}

/// What a clipboard read reply decodes to for a buffer of `cap` bytes: the
/// content's length (a success reply without a length word reads as
/// `InvalidArgument`).
pub open spec fn clipboard_read_result(r: RawMessage, cap: nat) -> Result<usize> {
    let status = clipboard_status_from_word(r.words[0]);
    let n = (r.words[1] as usize) as nat;
    if !reply_shape(r, ClipboardTag::ReadReply.spec_code(), 1) {
        Err(Error::InvalidArgument)
    } else if status == ClipboardStatus::Success && r.word_count >= 2 {
        match unpack_outcome(r, 2, n, cap) {
            Err(e) => Err(e),
            Ok(_) => Ok(n as usize),
        }
    } else {
        Err(clipboard_status_error(status))
    }
}

/// Step of reading the clipboard into `buffer`.
pub fn clipboard_read(buffer: &mut [u8], reply: Option<&RawMessage>) -> (step: Exchange<usize>)
    requires
        reply_wf(reply),
    ensures
        final(buffer)@.len() == old(buffer)@.len(),
        reply is None ==> final(buffer)@ == old(buffer)@ && sends(step, ClipboardTag::ReadRequest.spec_code(), Seq::empty()),
        reply matches Some(r) ==> step == Exchange::Done(clipboard_read_result(*r, old(buffer)@.len())),
        reply matches Some(r) ==> (step matches Exchange::Done(Ok(n)) ==> bytes_written(old(buffer)@, final(buffer)@, *r, 2, n as nat)),
        reply matches Some(r) ==> (step matches Exchange::Done(Err(_)) ==> final(buffer)@ == old(buffer)@),
{
    let r = match reply {
        None => return Exchange::Send(RawMessage::empty(ClipboardTag::ReadRequest.code())),
        Some(r) => r,
    };
    if !has_shape(r, ClipboardTag::ReadReply.code(), 1) {
        return Exchange::Done(Err(Error::InvalidArgument));
    }
    let status = clipboard_status_from_word(r.words[0]);
    if status == ClipboardStatus::Success && r.word_count >= 2 {
        let n = r.words[1] as usize;
        match unpack_from(r, 2, n, buffer) {
            Ok(()) => Exchange::Done(Ok(n)),
            Err(e) => Exchange::Done(Err(e)),
        }
    } else {
        Exchange::Done(Err(clipboard_status_error(status)))
    }
}

/// What a history reply decodes to: the entry's index, whether it is the
/// active one, and its length; its bytes fill a 64-byte field.
pub open spec fn history_result(r: RawMessage) -> Result<(u32, bool, u32)> {
    let status = clipboard_status_from_word(r.words[0]);
    let n = (r.words[3] as usize) as nat;
    if !reply_shape(r, ClipboardTag::HistoryReply.spec_code(), 1) {
        Err(Error::InvalidArgument)
    } else if status != ClipboardStatus::Success {
        Err(clipboard_status_error(status))
    } else if r.word_count < 4 {
        Err(Error::InvalidArgument)
    } else {
        match unpack_outcome(r, 4, n, 64) {
            Err(e) => Err(e),
            Ok(_) => Ok((r.words[1] as u32, r.words[2] != 0, n as u32)),
        }
    }
}

/// The entry agrees with the decoded fields `d`, and its bytes are the
/// content carried from word 4 on, then zeros.
pub open spec fn history_matches(e: ClipboardHistoryEntry, d: (u32, bool, u32), r: RawMessage) -> bool {
    &&& e.index == d.0
    &&& e.active == d.1
    &&& e.len == d.2
    &&& e.bytes@.take(d.2 as int) == message_bytes(r, 4, d.2 as nat)
    &&& forall|k: int| d.2 <= k < 64 ==> e.bytes@[k] == 0u8
}

/// Step of reading clipboard history entry `index`.
pub fn clipboard_history_entry(index: u32, reply: Option<&RawMessage>) -> (step: Exchange<ClipboardHistoryEntry>)
    requires
        reply_wf(reply),
    ensures
        reply is None ==> sends(step, ClipboardTag::HistoryRequest.spec_code(), seq![index as u64]),
        reply matches Some(r) ==> step matches Exchange::Done(res) && {
            &&& history_result(*r) matches Err(e) ==> res == Err::<ClipboardHistoryEntry, Error>(e)
            &&& history_result(*r) matches Ok(d) ==> (res matches Ok(entry) && history_matches(entry, d, *r))
        },
{
    let r = match reply {
        None => return Exchange::Send(request1(ClipboardTag::HistoryRequest.code(), index as u64)),
        Some(r) => r,
    };
    match clipboard_check(r, ClipboardTag::HistoryReply.code()) {
        Ok(()) => {},
        Err(e) => return Exchange::Done(Err(e)),
    }
    if r.word_count < 4 {
        return Exchange::Done(Err(Error::InvalidArgument));
    }
    let n = r.words[3] as usize;
    let mut bytes = [0u8; 64];
    let ghost zero = bytes@;
    match unpack_from(r, 4, n, &mut bytes) {
        Ok(()) => {},
        Err(e) => return Exchange::Done(Err(e)),
    }
    proof {
        assert forall|k: int| n <= k < 64 implies bytes@[k] == 0u8 by {
            assert(bytes@.subrange(n as int, 64)[k - n] == zero.subrange(n as int, 64)[k - n]);
        }
        assert(bytes@.take(n as int) =~= bytes@.subrange(0, n as int));
    }
    Exchange::Done(Ok(ClipboardHistoryEntry { index: r.words[1] as u32, active: r.words[2] != 0, len: n as u32, bytes }))
}

/// Step of making history entry `index` the clipboard's content.
pub fn clipboard_activate(index: u32, reply: Option<&RawMessage>) -> (step: Exchange<()>)
    ensures
        reply is None ==> sends(step, ClipboardTag::ActivateRequest.spec_code(), seq![index as u64]),
        reply matches Some(r) ==> step == Exchange::Done(clipboard_result(*r, ClipboardTag::ActivateReply.spec_code())),
{
    match reply {
        None => Exchange::Send(request1(ClipboardTag::ActivateRequest.code(), index as u64)),
        Some(r) => Exchange::Done(clipboard_check(r, ClipboardTag::ActivateReply.code())),
    }
}

} // verus!
