//! The request that maps a range of a memory object.
use vstd::prelude::*;

verus! {

/// Flag of a mapping request: map the range writable.
pub const MEMORY_MAP_WRITABLE: u32 = 1;

/// A request to map `length_bytes` of a memory object from `offset_bytes`.
#[derive(Clone, Copy, Debug, Eq, PartialEq)]
pub struct MemoryMapRequest {
    pub offset_bytes: usize,
    pub length_bytes: usize,
    pub address_hint: usize,
    pub flags: u32,
    pub reserved: u32,
}

/// The mapping request for `length_bytes` from `offset_bytes`, writable
/// when asked, with no address hint.
pub fn memory_map_request(offset_bytes: usize, length_bytes: usize, writable: bool) -> (r: MemoryMapRequest)
    ensures
        r == (MemoryMapRequest {
            offset_bytes,
            length_bytes,
            address_hint: 0,
            flags: if writable { MEMORY_MAP_WRITABLE } else { 0 },
            reserved: 0,
        }),
{
    MemoryMapRequest {
        offset_bytes,
        length_bytes,
        address_hint: 0,
        flags: if writable { MEMORY_MAP_WRITABLE } else { 0 },
        reserved: 0,
    }
}

} // verus!
