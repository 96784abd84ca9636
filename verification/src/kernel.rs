//! What the library makes of the kernel's answers to its event queries.
use vstd::prelude::*;

use crate::error::{Error, Result};

verus! {

/// Splits the kernel event log's packed summary into its two halves: the
/// low 32 bits first, then the high 32 bits.
pub fn kernel_event_query_info(packed: u64) -> (halves: (u64, u64))
    ensures
        halves.0 == packed % 0x1_0000_0000,
        halves.1 == packed / 0x1_0000_0000,
{
    let low = packed & 0xffff_ffff;
    let high = packed >> 32;
    assert(low == packed % 0x1_0000_0000 && high == packed / 0x1_0000_0000) by (bit_vector)
        requires
            low == packed & 0xffff_ffff,
            high == packed >> 32,
    ;
    (low, high)
}

/// The outcome of looking up one kernel event record: the record when the
/// kernel found it, `None` when it answered `NotFound` (the record has left
/// the log, or was never written), and any other error as it came.
pub fn kernel_event_query_record<T>(outcome: Result<T>) -> (r: Result<Option<T>>)
    ensures
        outcome matches Ok(v) ==> r == Ok::<Option<T>, Error>(Some(v)),
        outcome == Err::<T, Error>(Error::NotFound) ==> r == Ok::<Option<T>, Error>(None),
        outcome matches Err(e) ==> (e != Error::NotFound ==> r == Err::<Option<T>, Error>(e)),
{
    match outcome {
        Ok(v) => Ok(Some(v)),
        Err(Error::NotFound) => Ok(None),
        Err(e) => Err(e),
    }
}

} // verus!
