//! Address arithmetic on frame boundaries.
use vstd::prelude::*;
use crate::nexis_kernel::memory::FRAME_SIZE;

verus! {

/// Clearing the low twelve bits rounds down to a multiple of the frame size.
pub proof fn lemma_mask_is_round_down(x: usize)
    by (bit_vector)
    ensures
        x & !4095usize == x - x % 4096,
{
}

/// Aligns an address up to the next frame boundary.
pub fn align_up(addr: usize) -> (r: usize)
    requires
        addr + FRAME_SIZE - 1 <= usize::MAX,
    ensures
        r as int == (addr + FRAME_SIZE - 1) - (addr + FRAME_SIZE - 1) % FRAME_SIZE as int,
        r % FRAME_SIZE == 0,
        addr <= r < addr + FRAME_SIZE,
{
    let a = addr + (FRAME_SIZE - 1);
    proof {
        lemma_mask_is_round_down(a);
    }
    a & !(FRAME_SIZE - 1)
}

/// Aligns an address down to a frame boundary.
pub fn align_down(addr: usize) -> (r: usize)
    ensures
        r == addr - addr % FRAME_SIZE,
{
    proof {
        lemma_mask_is_round_down(addr);
    }
    addr & !(FRAME_SIZE - 1)
}

/// Converts a number of frames to bytes.
pub fn frames_to_bytes(frames: usize) -> (r: usize)
    requires
        frames * FRAME_SIZE <= usize::MAX,
    ensures
        r == frames * FRAME_SIZE,
{
    frames * FRAME_SIZE
}

/// Converts bytes to frames, rounding up.
pub fn bytes_to_frames(bytes: usize) -> (r: usize)
    requires
        bytes + FRAME_SIZE - 1 <= usize::MAX,
    ensures
        r == (bytes + FRAME_SIZE - 1) / FRAME_SIZE as int,
{
    (bytes + (FRAME_SIZE - 1)) / FRAME_SIZE
}

/// Whether an address is frame-aligned.
pub fn is_aligned(addr: usize) -> (r: bool)
    ensures
        r == (addr % FRAME_SIZE == 0),
{
    addr % FRAME_SIZE == 0
}

/// Offset of an address within its frame.
pub fn frame_offset(addr: usize) -> (r: usize)
    ensures
        r == addr % FRAME_SIZE,
{
    addr % FRAME_SIZE
}

/// Frame number containing an address.
pub fn addr_to_frame(addr: usize) -> (r: usize)
    ensures
        r == addr / FRAME_SIZE,
{
    addr / FRAME_SIZE
}

/// Start address of a frame number.
pub fn frame_to_addr(frame: usize) -> (r: usize)
    requires
        frame * FRAME_SIZE <= usize::MAX,
    ensures
        r == frame * FRAME_SIZE,
{
    frame * FRAME_SIZE
}

} // verus!
