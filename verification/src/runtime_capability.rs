//! Capability bits a runtime environment may be granted.
use vstd::prelude::*;

verus! {

pub const FILE_READ: u32 = 0x1;
pub const NETWORK: u32 = 0x2;
pub const AUDIO: u32 = 0x4;
pub const GRAPHICS: u32 = 0x8;
pub const TERMINAL_IO: u32 = 0x10;

} // verus!
