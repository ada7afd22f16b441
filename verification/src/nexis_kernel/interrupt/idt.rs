//! Interrupt descriptor table bookkeeping.
use vstd::prelude::*;
use crate::nexis_kernel::drivers::vga::{Console, vprintln_impl};
use crate::nexis_kernel::interrupt::InterruptError;
use crate::text::{hex, push_hex, string_of};

verus! {

/// Whether a handler may be registered for `vector`: only the remapped
/// hardware vectors 32 to 47 accept one.
pub fn register_interrupt_handler(vector: u8) -> (r: Result<(), InterruptError>)
    ensures
        r is Ok <==> 32 <= vector < 48,
        r is Err ==> r == Err::<(), InterruptError>(InterruptError::InvalidVector),
{
    if vector >= 32 && vector < 48 {
        Ok(())
    } else {
        Err(InterruptError::InvalidVector)
    }
}

/// Where the IDT lives.
#[derive(Debug, Clone, Copy, PartialEq, Eq, Structural)]
pub struct IdtInfo {
    pub base_address: u64,
    pub limit: u16,
    pub loaded: bool,
}

/// Information on the loaded IDT at `base_address` with `limit`.
pub fn get_idt_info(base_address: u64, limit: u16) -> (r: IdtInfo)
    ensures
        r == (IdtInfo { base_address, limit, loaded: true }),
{
    IdtInfo { base_address, limit, loaded: true }
}

/// The interrupt stack table slot of the double-fault stack.
pub const DOUBLE_FAULT_IST_INDEX: u16 = 0;

/// Reports the stack that double faults run on, its top in hexadecimal.
pub fn setup_double_fault_stack(con: &mut Console, stack_top: u64)
    requires
        old(con).wf(),
    ensures
        final(con).wf(),
        final(con).serial@ == old(con).serial@ + "Double fault stack configured at 0x"@ + hex(stack_top as nat)
            + seq!['\n'],
{
    let mut line = string_of("Double fault stack configured at 0x");
    push_hex(&mut line, stack_top);
    vprintln_impl(con, line.as_str());
}

} // verus!
