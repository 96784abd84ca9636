//! Permission bits an application may be granted by its launch policy.
use vstd::prelude::*;

verus! {

pub const CONFIG: u32 = 0x1;
pub const STORAGE: u32 = 0x2;
pub const STATUS: u32 = 0x4;
pub const PACKAGE: u32 = 0x8;
pub const NETWORK: u32 = 0x10;
pub const AUDIO: u32 = 0x20;
pub const TERMINAL: u32 = 0x40;
pub const CLIPBOARD: u32 = 0x80;

} // verus!
