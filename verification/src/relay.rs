//! Text relays: one-way channels that carry short texts, such as a
//! runtime's output.
use vstd::prelude::*;
use vstd::string::StringSliceAdditionalSpecFns;

use crate::error::{Error, Result};
use crate::message::{bytes_written, is_request, packed_words, request_with_bytes, unpack_from, unpack_outcome, RawMessage};

verus! {

/// Tag of a relayed text.
pub const TEXT_RELAY_TAG: u32 = 1;
/// Tag of relayed runtime output.
pub const RUNTIME_OUTPUT_RELAY_TAG: u32 = TEXT_RELAY_TAG;

/// The message that relays `text`: its length, then its bytes;
/// `BufferTooSmall` for more than one message carries.
pub fn text_relay_write(text: &str) -> (res: Result<RawMessage>)
    ensures
        text.spec_bytes().len() > 120 ==> res == Err::<RawMessage, Error>(Error::BufferTooSmall),
        text.spec_bytes().len() <= 120 ==> (res matches Ok(m)
            && is_request(m, TEXT_RELAY_TAG, seq![text.spec_bytes().len() as u64] + packed_words(text.spec_bytes()))),
{
    let bytes = text.as_bytes();
    if bytes.len() > 120 {
        return Err(Error::BufferTooSmall);
    }
    let head: [u64; 1] = [bytes.len() as u64];
    assert(head@ =~= seq![bytes@.len() as u64]);
    Ok(request_with_bytes(TEXT_RELAY_TAG, head.as_slice(), bytes))
}

/// What a received relay message decodes to for a buffer of `cap` bytes:
/// the text's length, from word 0, its bytes from word 1 on.
pub open spec fn relay_result(m: RawMessage, cap: nat) -> Result<usize> {
    let n = (m.words[0] as usize) as nat;
    if m.tag != TEXT_RELAY_TAG || m.word_count < 1 {
        Err(Error::InvalidArgument)
    } else if n > cap {
        Err(Error::BufferTooSmall)
    } else {
        match unpack_outcome(m, 1, n, cap) {
            Err(e) => Err(e),
            Ok(_) => Ok(n as usize),
        }
    }
}

/// Decodes a message received (without blocking) from a relay into
/// `buffer`; the outcome is the text's length.
pub fn text_relay_try_read(message: &RawMessage, buffer: &mut [u8]) -> (res: Result<usize>)
    requires
        message.wf(),
    ensures
        res == relay_result(*message, old(buffer)@.len()),
        final(buffer)@.len() == old(buffer)@.len(),
        res matches Ok(n) ==> bytes_written(old(buffer)@, final(buffer)@, *message, 1, n as nat),
        res is Err ==> final(buffer)@ == old(buffer)@,
{
    if message.tag != TEXT_RELAY_TAG || message.word_count < 1 {
        return Err(Error::InvalidArgument);
    }
    let n = message.words[0] as usize;
    if n > buffer.len() {
        return Err(Error::BufferTooSmall);
    }
    match unpack_from(message, 1, n, buffer) {
        Ok(()) => Ok(n),
        Err(e) => Err(e),
    }
}

/// The message that relays runtime output (see `text_relay_write`).
pub fn runtime_output_relay_write(text: &str) -> (res: Result<RawMessage>)
    ensures
        text.spec_bytes().len() > 120 ==> res == Err::<RawMessage, Error>(Error::BufferTooSmall),
        text.spec_bytes().len() <= 120 ==> (res matches Ok(m)
            && is_request(m, RUNTIME_OUTPUT_RELAY_TAG, seq![text.spec_bytes().len() as u64] + packed_words(text.spec_bytes()))),
{
    text_relay_write(text)
}

/// Decodes received runtime output (see `text_relay_try_read`).
pub fn runtime_output_relay_try_read(message: &RawMessage, buffer: &mut [u8]) -> (res: Result<usize>)
    requires
        message.wf(),
    ensures
        res == relay_result(*message, old(buffer)@.len()),
        final(buffer)@.len() == old(buffer)@.len(),
        res matches Ok(n) ==> bytes_written(old(buffer)@, final(buffer)@, *message, 1, n as nat),
        res is Err ==> final(buffer)@ == old(buffer)@,
{
    text_relay_try_read(message, buffer)
}

} // verus!
