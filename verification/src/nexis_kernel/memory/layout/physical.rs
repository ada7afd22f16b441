//! Physical memory layout constants.
use vstd::prelude::*;

verus! {

/// Start of conventional memory (after the BIOS data area).
pub const CONVENTIONAL_START: usize = 0x500;

/// End of conventional memory (start of the EBDA).
pub const CONVENTIONAL_END: usize = 0x80000;

/// Start of extended memory (1 MB).
pub const EXTENDED_START: usize = 0x100000;

/// Typical end of usable memory (4 GB).
pub const MAX_MEMORY: u64 = 0x100000000;

/// VGA frame buffer.
pub const VGA_BUFFER: usize = 0xB8000;

/// Size of the VGA frame buffer.
pub const VGA_BUFFER_SIZE: usize = 0x8000;

/// Start of the BIOS area to avoid.
pub const BIOS_START: usize = 0x80000;

/// End of the BIOS area to avoid.
pub const BIOS_END: usize = 0x100000;

} // verus!
