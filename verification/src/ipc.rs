//! Decisions of the blocking channel calls: when a send or a receive is
//! tried again, and how a call request carries its reply endpoint.
use vstd::prelude::*;

use crate::error::{Error, Result};
use crate::message::{Handle, RawMessage};
use crate::rights;

verus! {

/// What a blocking send makes of one attempt: a full queue
/// (`CapacityExceeded`) means yield and try again (`None`); any other
/// outcome is final.
pub fn channel_send_blocking(attempt: Result<()>) -> (next: Option<Result<()>>)
    ensures
        attempt == Err::<(), Error>(Error::CapacityExceeded) ==> next is None,
        attempt != Err::<(), Error>(Error::CapacityExceeded) ==> next == Some(attempt),
{
    match attempt {
        Err(Error::CapacityExceeded) => None,
        other => Some(other),
    }
}

/// What a blocking receive makes of one attempt: an empty queue
/// (`QueueEmpty`) means try again (`None`); any other outcome is final.
pub fn channel_receive_blocking(attempt: Result<()>) -> (next: Option<Result<()>>)
    ensures
        attempt == Err::<(), Error>(Error::QueueEmpty) ==> next is None,
        attempt != Err::<(), Error>(Error::QueueEmpty) ==> next == Some(attempt),
{
    match attempt {
        Err(Error::QueueEmpty) => None,
        other => Some(other),
    }
}

/// Makes `request` a call: it carries exactly one handle, the sending end
/// of the reply channel, with send rights. Its tag, flags and words stay.
pub fn channel_call(request: &mut RawMessage, reply_endpoint: Handle)
    ensures
        final(request).tag == old(request).tag,
        final(request).flags == old(request).flags,
        final(request).word_count == old(request).word_count,
        final(request).words == old(request).words,
        final(request).handle_count == 1,
        final(request).handles[0] == reply_endpoint,
        final(request).handle_rights[0] == rights::SEND,
{
    request.handle_count = 1;
    request.handles[0] = reply_endpoint;
    request.handle_rights[0] = rights::SEND;
}

} // verus!
