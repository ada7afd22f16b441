//! Address space layout randomization.
use vstd::prelude::*;
use crate::nexis_kernel::drivers::kb::{XorShift64, xorshift64_step};
use crate::nexis_kernel::memory::VirtAddr;
use crate::nexis_kernel::memory::layout::virtual_memory;

verus! {

/// Randomizes the bases of user-space regions.
pub struct AslrManager {
    pub rng: XorShift64,
}

impl AslrManager {
    /// A manager seeded with `seed`.
    pub fn new(seed: u64) -> (r: Self)
        ensures
            r.rng.state == (if seed == 0 { 1 } else { seed }),
    {
        Self { rng: XorShift64::new(seed) }
    }

    /// User code base: `USER_START` plus an offset below 256 MB.
    pub fn randomize_user_base(&mut self) -> (r: VirtAddr)
        ensures
            final(self).rng.state == xorshift64_step(old(self).rng.state),
            r.0 == virtual_memory::USER_START + final(self).rng.state % 0x10000000,
    {
        let base = virtual_memory::USER_START;
        let offset = (self.rng.next_u64() % 0x10000000) as usize;
        VirtAddr(base + offset)
    }

    /// User heap base: `USER_HEAP_START` plus an offset below 16 MB.
    pub fn randomize_heap_base(&mut self) -> (r: VirtAddr)
        ensures
            final(self).rng.state == xorshift64_step(old(self).rng.state),
            r.0 == virtual_memory::USER_HEAP_START + final(self).rng.state % 0x1000000,
    {
        let base = virtual_memory::USER_HEAP_START;
        let offset = (self.rng.next_u64() % 0x1000000) as usize;
        VirtAddr(base + offset)
    }

    /// User stack base: below `USER_STACK_TOP - USER_STACK_SIZE` by an offset below 16 MB.
    pub fn randomize_stack_base(&mut self) -> (r: VirtAddr)
        requires
            usize::BITS == 64,
        ensures
            final(self).rng.state == xorshift64_step(old(self).rng.state),
            r.0 == virtual_memory::USER_STACK_TOP - virtual_memory::USER_STACK_SIZE
                - final(self).rng.state % 0x1000000,
    {
        let base = virtual_memory::USER_STACK_TOP as usize - virtual_memory::USER_STACK_SIZE;
        let offset = (self.rng.next_u64() % 0x1000000) as usize;
        VirtAddr(base - offset)
    }
}

} // verus!
