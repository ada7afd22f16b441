//! The two cascaded 8259 programmable interrupt controllers.
//!
//! The methods compute the port writes a PIC operation consists of; the
//! caller performs them in order.
use vstd::prelude::*;
use crate::nexis_kernel::drivers::vga::{Console, vprintln_impl};

verus! {

/// Master PIC command port.
pub const PIC1_COMMAND: u16 = 0x20;
/// Master PIC data port.
pub const PIC1_DATA: u16 = 0x21;
/// Slave PIC command port.
pub const PIC2_COMMAND: u16 = 0xA0;
/// Slave PIC data port.
pub const PIC2_DATA: u16 = 0xA1;
/// End-of-interrupt command.
pub const PIC_EOI: u8 = 0x20;
/// ICW1: ICW4 will follow.
pub const ICW1_ICW4: u8 = 0x01;
/// ICW1: initialisation.
pub const ICW1_INIT: u8 = 0x10;
/// ICW4: 8086 mode.
pub const ICW4_8086: u8 = 0x01;
/// Vector offset of the master PIC after remapping.
pub const PIC1_OFFSET: u8 = 32;
/// Vector offset of the slave PIC after remapping.
pub const PIC2_OFFSET: u8 = 40;
/// Port written to for a short delay between commands.
pub const IO_WAIT_PORT: u16 = 0x80;

/// One byte written to an I/O port.
#[derive(Debug, Clone, Copy, PartialEq, Eq, Structural)]
pub struct PortWrite {
    pub port: u16,
    pub value: u8,
}

/// The two PICs and their vector offsets.
#[derive(Debug, Clone, Copy, PartialEq, Eq, Structural)]
pub struct Pics {
    pub pic1_offset: u8,
    pub pic2_offset: u8,
}

/// A write followed by the delay write.
pub open spec fn waited(port: u16, value: u8) -> Seq<PortWrite> {
    seq![PortWrite { port, value }, PortWrite { port: IO_WAIT_PORT, value: 0 }]
}

fn push_write(v: &mut Vec<PortWrite>, port: u16, value: u8)
    ensures
        final(v)@ == old(v)@.push(PortWrite { port, value }),
{
    v.push(PortWrite { port, value });
}

fn push_waited(v: &mut Vec<PortWrite>, port: u16, value: u8)
    ensures
        final(v)@ == old(v)@ + waited(port, value),
{
    v.push(PortWrite { port, value });
    v.push(PortWrite { port: IO_WAIT_PORT, value: 0 });
    assert(v@ =~= old(v)@ + waited(port, value));
}

/// The mask with bit `b` cleared.
pub open spec fn unmasked(mask: u8, b: u8) -> u8 {
    mask & !((1u8 << b) as u8)
}

/// The mask with bit `b` set.
pub open spec fn masked(mask: u8, b: u8) -> u8 {
    mask | ((1u8 << b) as u8)
}

impl Pics {
    /// PICs that will be remapped to the given vector offsets.
    pub fn new(pic1_offset: u8, pic2_offset: u8) -> (r: Self)
        ensures
            r.pic1_offset == pic1_offset,
            r.pic2_offset == pic2_offset,
    {
        Pics { pic1_offset, pic2_offset }
    }

    /// The initialisation sequence: ICW1 to both, the vector offsets, the
    /// cascade wiring (slave on IRQ2), 8086 mode, then every line masked.
    pub fn remap(&self) -> (r: Vec<PortWrite>)
        ensures
            r@ == self.remap_spec(),
    {
        let mut v: Vec<PortWrite> = Vec::new();
        push_waited(&mut v, PIC1_COMMAND, ICW1_INIT | ICW1_ICW4);
        push_waited(&mut v, PIC2_COMMAND, ICW1_INIT | ICW1_ICW4);
        push_waited(&mut v, PIC1_DATA, self.pic1_offset);
        push_waited(&mut v, PIC2_DATA, self.pic2_offset);
        push_waited(&mut v, PIC1_DATA, 4);
        push_waited(&mut v, PIC2_DATA, 2);
        push_waited(&mut v, PIC1_DATA, ICW4_8086);
        push_waited(&mut v, PIC2_DATA, ICW4_8086);
        push_write(&mut v, PIC1_DATA, 0xFF);
        push_write(&mut v, PIC2_DATA, 0xFF);
        assert(v@ =~= self.remap_spec());
        v
    }

    /// The initialisation sequence: ICW1 to both, the vector offsets, the
    /// cascade wiring (slave on IRQ2), 8086 mode, then every line masked.
    pub open spec fn remap_spec(&self) -> Seq<PortWrite> {
        waited(PIC1_COMMAND, ICW1_INIT | ICW1_ICW4) + waited(PIC2_COMMAND, ICW1_INIT | ICW1_ICW4)
                + waited(PIC1_DATA, self.pic1_offset) + waited(PIC2_DATA, self.pic2_offset) + waited(
                PIC1_DATA, 4) + waited(PIC2_DATA, 2) + waited(PIC1_DATA, ICW4_8086) + waited(PIC2_DATA,
                ICW4_8086) + seq![PortWrite { port: PIC1_DATA, value: 0xFF }, PortWrite { port: PIC2_DATA, value: 0xFF }]
    }

    /// End of interrupt: to the slave too when the IRQ came from it.
    pub fn send_eoi(&self, irq: u8) -> (r: Vec<PortWrite>)
        ensures
            irq >= 8 ==> r@ == seq![PortWrite { port: PIC2_COMMAND, value: PIC_EOI }, PortWrite { port: PIC1_COMMAND, value: PIC_EOI }],
            irq < 8 ==> r@ == seq![PortWrite { port: PIC1_COMMAND, value: PIC_EOI }],
    {
        let mut v: Vec<PortWrite> = Vec::new();
        if irq >= 8 {
            push_write(&mut v, PIC2_COMMAND, PIC_EOI);
        }
        push_write(&mut v, PIC1_COMMAND, PIC_EOI);
        assert(irq >= 8 ==> v@ =~= seq![PortWrite { port: PIC2_COMMAND, value: PIC_EOI }, PortWrite { port: PIC1_COMMAND, value: PIC_EOI }]);
        assert(irq < 8 ==> v@ =~= seq![PortWrite { port: PIC1_COMMAND, value: PIC_EOI }]);
        v
    }

    /// New masks `(master, slave)` after enabling `irq`, given the current
    /// ones: its bit is cleared, and for a slave line the cascade line 2 on
    /// the master too.  Lines from 16 on change nothing.
    pub fn enable_irq(&self, irq: u8, pic1_mask: u8, pic2_mask: u8) -> (r: (u8, u8))
        ensures
            irq < 8 ==> r == (unmasked(pic1_mask, irq), pic2_mask),
            8 <= irq < 16 ==> r == (unmasked(pic1_mask, 2), unmasked(pic2_mask, (irq - 8) as u8)),
            irq >= 16 ==> r == (pic1_mask, pic2_mask),
    {
        if irq < 8 {
            (pic1_mask & !(1u8 << irq), pic2_mask)
        } else if irq < 16 {
            (pic1_mask & !(1u8 << 2u8), pic2_mask & !(1u8 << (irq - 8)))
        } else {
            (pic1_mask, pic2_mask)
        }
    }

    /// New masks `(master, slave)` after disabling `irq`: its bit is set.
    /// Lines from 16 on change nothing.
    pub fn disable_irq(&self, irq: u8, pic1_mask: u8, pic2_mask: u8) -> (r: (u8, u8))
        ensures
            irq < 8 ==> r == (masked(pic1_mask, irq), pic2_mask),
            8 <= irq < 16 ==> r == (pic1_mask, masked(pic2_mask, (irq - 8) as u8)),
            irq >= 16 ==> r == (pic1_mask, pic2_mask),
    {
        if irq < 8 {
            (pic1_mask | (1u8 << irq), pic2_mask)
        } else if irq < 16 {
            (pic1_mask, pic2_mask | (1u8 << (irq - 8)))
        } else {
            (pic1_mask, pic2_mask)
        }
    }
}

/// Initialises the controllers: the remapping sequence to send, with
/// every line masked until a driver enables its own; the console reports it.
pub fn init_pic(pics: &Pics, con: &mut Console) -> (r: Vec<PortWrite>)
    requires
        old(con).wf(),
    ensures
        final(con).wf(),
        r@ == pics.remap_spec(),
        final(con).serial@ == old(con).serial@ + "PIC initialization complete"@ + seq!['\n'],
{
    let writes = pics.remap();
    vprintln_impl(con, "PIC initialization complete");
    writes
}

/// Remaps the controllers: the sequence to send, announced before and
/// confirmed after on the console.
pub fn remap_pic(pics: &Pics, con: &mut Console) -> (r: Vec<PortWrite>)
    requires
        old(con).wf(),
    ensures
        final(con).wf(),
        r@ == pics.remap_spec(),
        final(con).serial@ == old(con).serial@ + "Remapping PIC..."@ + seq!['\n'] + "PIC remapped successfully"@
            + seq!['\n'],
{
    vprintln_impl(con, "Remapping PIC...");
    let writes = pics.remap();
    vprintln_impl(con, "PIC remapped successfully");
    writes
}

} // verus!
