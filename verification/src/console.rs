//! Console-service protocol: log records mirrored to the console, and
//! interactive console sessions.
use vstd::prelude::*;
use vstd::string::StringSliceAdditionalSpecFns;

use crate::abi::{ConsoleTag, LogDomain, LogEvent, LogSeverity, ServiceId};
use crate::error::{Error, Result};
use crate::message::{
    bytes_written, has_shape, is_request, packed_words, reply_wf, request_with_bytes, request_words,
    sends, unpack_from, unpack_outcome, Exchange, Handle, RawMessage,
};

verus! {

/// The words of a console record: source, severity, domain and event codes,
/// the two arguments and the sequence number.
pub open spec fn record_words(source: ServiceId, severity: LogSeverity, domain: LogDomain, event: LogEvent, arg0: u64, arg1: u64, sequence: u64) -> Seq<u64> {
    seq![source.spec_code() as u64, severity.spec_code() as u64, domain.spec_code() as u64, event.spec_code() as u64, arg0, arg1, sequence]
}

/// The message that writes one log record to the console.
pub fn console_write_record(source: ServiceId, severity: LogSeverity, domain: LogDomain, event: LogEvent, arg0: u64, arg1: u64, sequence: u64) -> (m: RawMessage)
    ensures
        is_request(m, ConsoleTag::WriteRecord.spec_code(), record_words(source, severity, domain, event, arg0, arg1, sequence)),
{
    let ws: [u64; 7] = [source.code() as u64, severity.code() as u64, domain.code() as u64, event.code() as u64, arg0, arg1, sequence];
    assert(ws@ =~= record_words(source, severity, domain, event, arg0, arg1, sequence));
    request_words(ConsoleTag::WriteRecord.code(), ws.as_slice())
}

/// What a session-open reply decodes to: the session's handle; any other
/// reply, or one without a handle, reads as `Busy`.
pub open spec fn session_open_result(r: RawMessage) -> Result<Handle> {
    if r.tag != ConsoleTag::SessionOpenReply.spec_code() || r.handle_count < 1 {
        Err(Error::Busy)
    } else {
        Ok(r.handles[0])
    }
}

/// Step of opening a console session.
pub fn console_session_open(reply: Option<&RawMessage>) -> (step: Exchange<Handle>)
    ensures
        reply is None ==> sends(step, ConsoleTag::SessionOpenRequest.spec_code(), Seq::empty()),
        reply matches Some(r) ==> step == Exchange::Done(session_open_result(*r)),
{
    match reply {
        None => Exchange::Send(RawMessage::empty(ConsoleTag::SessionOpenRequest.code())),
        Some(r) => {
            if r.tag != ConsoleTag::SessionOpenReply.code() || r.handle_count < 1 {
                Exchange::Done(Err(Error::Busy))
            } else {
                Exchange::Done(Ok(r.handles[0]))
            }
        },
    }
}

/// The message that writes `text` to a console session: its length, then
/// its bytes; `BufferTooSmall` for more than one message carries.
pub fn console_session_write(text: &str) -> (res: Result<RawMessage>)
    ensures
        text.spec_bytes().len() > 120 ==> res == Err::<RawMessage, Error>(Error::BufferTooSmall),
        text.spec_bytes().len() <= 120 ==> (res matches Ok(m)
            && is_request(m, ConsoleTag::SessionWriteText.spec_code(), seq![text.spec_bytes().len() as u64] + packed_words(text.spec_bytes()))),
{
    let bytes = text.as_bytes();
    if bytes.len() > 120 {
        return Err(Error::BufferTooSmall);
    }
    let head: [u64; 1] = [bytes.len() as u64];
    assert(head@ =~= seq![bytes@.len() as u64]);
    Ok(request_with_bytes(ConsoleTag::SessionWriteText.code(), head.as_slice(), bytes))
}

/// What a read-line reply decodes to for a buffer of `cap` bytes: the
/// line's length, from word 0, its bytes from word 1 on.
pub open spec fn read_line_result(r: RawMessage, cap: nat) -> Result<usize> {
    let n = (r.words[0] as usize) as nat;
    if r.tag != ConsoleTag::SessionReadLineReply.spec_code() || r.word_count < 1 {
        Err(Error::InvalidArgument)
    } else {
        match unpack_outcome(r, 1, n, cap) {
            Err(e) => Err(e),
            Ok(_) => Ok(n as usize),
        }
    }
}

/// Step of reading one line of a console session into `buffer`.
pub fn console_session_read_line(buffer: &mut [u8], reply: Option<&RawMessage>) -> (step: Exchange<usize>)
    requires
        reply_wf(reply),
    ensures
        final(buffer)@.len() == old(buffer)@.len(),
        reply is None ==> final(buffer)@ == old(buffer)@ && sends(step, ConsoleTag::SessionReadLineRequest.spec_code(), Seq::empty()),
        reply matches Some(r) ==> step == Exchange::Done(read_line_result(*r, old(buffer)@.len())),
        reply matches Some(r) ==> (step matches Exchange::Done(Ok(n)) ==> bytes_written(old(buffer)@, final(buffer)@, *r, 1, n as nat)),
        reply matches Some(r) ==> (step matches Exchange::Done(Err(_)) ==> final(buffer)@ == old(buffer)@),
{
    let r = match reply {
        None => return Exchange::Send(RawMessage::empty(ConsoleTag::SessionReadLineRequest.code())),
        Some(r) => r,
    };
    if !has_shape(r, ConsoleTag::SessionReadLineReply.code(), 1) {
        return Exchange::Done(Err(Error::InvalidArgument));
    }
    let n = r.words[0] as usize;
    match unpack_from(r, 1, n, buffer) {
        Ok(()) => Exchange::Done(Ok(n)),
        Err(e) => Exchange::Done(Err(e)),
    }
}

} // verus!
