//! Values handed to the kernel's device calls.
use vstd::prelude::*;

verus! {

/// The two words that carry a damaged rectangle of a display output: the
/// position as two 32-bit halves (`x` low, `y` high, each reinterpreted as
/// unsigned), then the size the same way (`width` low, `height` high).
pub fn display_damage_words(x: i32, y: i32, width: u32, height: u32) -> (w: (u64, u64))
    ensures
        w.0 as u32 == x as u32,
        (w.0 >> 32) as u32 == y as u32,
        w.1 as u32 == width,
        (w.1 >> 32) as u32 == height,
{
    let xs = x as u32 as u64;
    let ys = y as u32 as u64;
    let ws = width as u64;
    let hs = height as u64;
    let position = (ys << 32) | xs;
    let size = (hs << 32) | ws;
    assert(position as u32 == xs as u32 && (position >> 32) as u32 == ys as u32) by (bit_vector)
        requires
            position == (ys << 32) | xs,
            xs < 0x1_0000_0000,
            ys < 0x1_0000_0000,
    ;
    assert(size as u32 == ws as u32 && (size >> 32) as u32 == hs as u32) by (bit_vector)
        requires
            size == (hs << 32) | ws,
            ws < 0x1_0000_0000,
            hs < 0x1_0000_0000,
    ;
    (position, size)
}

} // verus!
