//! Rights carried beside a transferred handle.
use vstd::prelude::*;

verus! {

pub const SEND: u64 = 0x1;
pub const RECEIVE: u64 = 0x2;
pub const DUPLICATE: u64 = 0x4;
pub const TRANSFER: u64 = 0x8;
pub const READ: u64 = 0x10;

} // verus!
