//! Kernel entropy: how a draw of random bytes is asked of the kernel and
//! what its answer means. The kernel call itself is made by the caller.
use vstd::prelude::*;

use crate::error::Result;

verus! {

/// Largest fill the kernel serves per entropy request; larger asks are
/// clamped to it.
pub const RNG_MAX_REQUEST_BYTES: usize = 4096;

/// What an entropy draw needs: nothing (its outcome is known), or a kernel
/// request for `length` bytes at the front of the buffer.
#[derive(Clone, Copy, Debug, PartialEq, Eq)]
pub enum EntropyDraw {
    Ready(Result<usize>),
    Request { length: usize },
}

/// Plans a draw of kernel entropy into `buffer`: an empty buffer is done at
/// once with nothing written; otherwise the kernel is asked to fill the
/// first `min(len, RNG_MAX_REQUEST_BYTES)` bytes.
pub fn entropy(buffer: &mut [u8]) -> (d: EntropyDraw)
    ensures
        final(buffer)@ == old(buffer)@,
        old(buffer)@.len() == 0 ==> d == EntropyDraw::Ready(Ok(0)),
        old(buffer)@.len() > 0 ==> d == (EntropyDraw::Request {
            length: if old(buffer)@.len() < RNG_MAX_REQUEST_BYTES { old(buffer)@.len() as usize } else { RNG_MAX_REQUEST_BYTES },
        }),
{
    let length: usize = if buffer.len() < RNG_MAX_REQUEST_BYTES { buffer.len() } else { RNG_MAX_REQUEST_BYTES };
    if length == 0 {
        return EntropyDraw::Ready(Ok(0));
    }
    EntropyDraw::Request { length }
}

/// The outcome of a draw from the kernel's answer: the number of bytes it
/// wrote, or its error.
pub fn entropy_outcome(answer: Result<u64>) -> (r: Result<usize>)
    ensures
        r == match answer {
            Ok(v) => Ok::<usize, crate::error::Error>(v as usize),
            Err(e) => Err(e),
        },
{
    match answer {
        Ok(v) => Ok(v as usize),
        Err(e) => Err(e),
    }
}

} // verus!
