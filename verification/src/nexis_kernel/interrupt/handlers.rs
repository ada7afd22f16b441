//! Interrupt bookkeeping shared by the handlers.
use vstd::prelude::*;
use crate::nexis_kernel::drivers::vga::{Console, text_lines, vprintln_impl};
use crate::nexis_kernel::interrupt::timer::{TimerState, tick_room, timer_tick, should_reschedule};
use crate::text::{bool_text, dec, hex, push_bool, push_dec, push_hex, push_str, string_of};

verus! {

/// Interrupt counters.
#[derive(Debug, Clone, Copy, PartialEq, Eq, Structural)]
pub struct InterruptStats {
    pub timer_interrupts: u64,
    pub keyboard_interrupts: u64,
    pub page_faults: u64,
    pub general_protection_faults: u64,
}

/// A snapshot of the counters.
pub fn get_interrupt_stats(c: &InterruptStats) -> (r: InterruptStats)
    ensures
        r == *c,
{
    *c
}

/// Clears the counters.
pub fn reset_interrupt_stats(c: &mut InterruptStats)
    ensures
        *final(c) == (InterruptStats { timer_interrupts: 0, keyboard_interrupts: 0, page_faults: 0,
            general_protection_faults: 0 }),
{
    *c = InterruptStats { timer_interrupts: 0, keyboard_interrupts: 0, page_faults: 0, general_protection_faults: 0 };
}

/// The timer interrupt's work: count the tick, take the timer's reschedule
/// request and hand it to the scheduler's flag.  Returns the IRQ to
/// acknowledge.
pub fn timer_interrupt(t: &mut TimerState, need_resched: &mut bool) -> (irq: u8)
    requires
        tick_room(*old(t)),
    ensures
        irq == 0,
        final(t).tick_count == old(t).tick_count.wrapping_add(1),
        !final(t).need_reschedule,
        *final(need_resched),
{
    timer_tick(t);
    if should_reschedule(t) {
        *need_resched = true;
    }
    0
}

/// The banner an exception is reported under.
pub open spec fn exception_banner(name: Seq<char>) -> Seq<char> {
    "\n*** EXCEPTION: "@ + name + " ***"@
}

/// The lines an exception is logged with: the banner, the error code when
/// there is one, then the instruction pointer, the stack pointer and the
/// flags, in hexadecimal.
pub open spec fn exception_log_lines(name: Seq<char>, error_code: Option<u64>, ip: u64, sp: u64, flags: u64) -> Seq<
    Seq<char>,
> {
    seq![exception_banner(name)] + (match error_code {
        Some(c) => seq!["Error code: 0x"@ + hex(c as nat)],
        None => Seq::empty(),
    }) + seq![
        "Instruction pointer: 0x"@ + hex(ip as nat),
        "Stack pointer: 0x"@ + hex(sp as nat),
        "CPU flags: 0x"@ + hex(flags as nat),
    ]
}

/// Writes a line made of a prefix and a number in hexadecimal.
fn print_hex_line(con: &mut Console, prefix: &str, n: u64)
    requires
        old(con).wf(),
    ensures
        final(con).wf(),
        final(con).serial@ == old(con).serial@ + prefix@ + hex(n as nat) + seq!['\n'],
{
    let mut line = string_of(prefix);
    push_hex(&mut line, n);
    vprintln_impl(con, line.as_str());
}

/// Logs an exception with the interrupted context.
pub fn log_exception(con: &mut Console, name: &str, error_code: Option<u64>, ip: u64, sp: u64, flags: u64)
    requires
        old(con).wf(),
    ensures
        final(con).wf(),
        final(con).serial@ == old(con).serial@ + text_lines(exception_log_lines(name@, error_code, ip, sp, flags)),
{
    let ghost start = con.serial@;
    let mut banner = string_of("\n*** EXCEPTION: ");
    push_str(&mut banner, name);
    push_str(&mut banner, " ***");
    vprintln_impl(con, banner.as_str());
    let ghost l0 = con.serial@;
    match error_code {
        Some(c) => print_hex_line(con, "Error code: 0x", c),
        None => {},
    }
    let ghost l1 = con.serial@;
    print_hex_line(con, "Instruction pointer: 0x", ip);
    print_hex_line(con, "Stack pointer: 0x", sp);
    print_hex_line(con, "CPU flags: 0x", flags);
    proof {
        let lines = exception_log_lines(name@, error_code, ip, sp, flags);
        reveal_with_fuel(text_lines, 6);
        let tail = seq![
            "Instruction pointer: 0x"@ + hex(ip as nat),
            "Stack pointer: 0x"@ + hex(sp as nat),
            "CPU flags: 0x"@ + hex(flags as nat),
        ];
        match error_code {
            Some(c) => {
                assert(lines =~= seq![exception_banner(name@), "Error code: 0x"@ + hex(c as nat)] + tail);
                assert(text_lines(lines) =~= exception_banner(name@) + seq!['\n'] + ("Error code: 0x"@ + hex(
                    c as nat)) + seq!['\n'] + tail[0] + seq!['\n'] + tail[1] + seq!['\n'] + tail[2] + seq!['\n']);
            },
            None => {
                assert(lines =~= seq![exception_banner(name@)] + tail);
                assert(text_lines(lines) =~= exception_banner(name@) + seq!['\n'] + tail[0] + seq!['\n'] + tail[1]
                    + seq!['\n'] + tail[2] + seq!['\n']);
            },
        }
        assert(con.serial@ =~= start + text_lines(lines));
    }
}

/// The descriptor table a general-protection error code names.
pub open spec fn gp_table_name(table: u64) -> Seq<char> {
    if table == 0 {
        "GDT"@
    } else if table == 2 {
        "LDT"@
    } else {
        "IDT"@
    }
}

/// The details of a general-protection fault: none for a zero error code,
/// else whether it was external (bit 0), the table (bits 1-2) and the
/// selector index (the bits above).
pub open spec fn gp_fault_lines(error_code: u64) -> Seq<Seq<char>> {
    if error_code == 0 {
        Seq::empty()
    } else {
        let table = (error_code >> 1u64) & 3u64;
        seq![
            "Error details:"@,
            "  External: "@ + bool_text(error_code & 1u64 != 0),
            "  Table: "@ + dec(table as nat) + " ("@ + gp_table_name(table) + ")"@,
            "  Index: 0x"@ + hex((error_code >> 3u64) as nat),
        ]
    }
}

/// Writes the details of a general-protection fault's error code.
pub fn report_gp_fault_details(con: &mut Console, error_code: u64)
    requires
        old(con).wf(),
    ensures
        final(con).wf(),
        final(con).serial@ == old(con).serial@ + text_lines(gp_fault_lines(error_code)),
{
    if error_code == 0 {
        proof {
            assert(text_lines(gp_fault_lines(error_code)) =~= Seq::<char>::empty());
        }
        return;
    }
    let ghost start = con.serial@;
    let external = (error_code & 1) != 0;
    let table = (error_code >> 1) & 3;
    let index = error_code >> 3;
    vprintln_impl(con, "Error details:");
    let mut l1 = string_of("  External: ");
    push_bool(&mut l1, external);
    vprintln_impl(con, l1.as_str());
    let mut l2 = string_of("  Table: ");
    push_dec(&mut l2, table);
    push_str(&mut l2, " (");
    let name = if table == 0 {
        "GDT"
    } else if table == 2 {
        "LDT"
    } else {
        "IDT"
    };
    push_str(&mut l2, name);
    push_str(&mut l2, ")");
    vprintln_impl(con, l2.as_str());
    let mut l3 = string_of("  Index: 0x");
    push_hex(&mut l3, index);
    vprintln_impl(con, l3.as_str());
    proof {
        let lines = gp_fault_lines(error_code);
        reveal_with_fuel(text_lines, 5);
        assert(text_lines(lines) =~= lines[0] + seq!['\n'] + lines[1] + seq!['\n'] + lines[2] + seq!['\n']
            + lines[3] + seq!['\n']);
        assert(con.serial@ =~= start + text_lines(lines));
    }
}

/// Page-fault error code bit: the page was present (a protection violation).
pub const PF_PROTECTION_VIOLATION: u64 = 1;
/// Page-fault error code bit: the access was a write.
pub const PF_CAUSED_BY_WRITE: u64 = 2;
/// Page-fault error code bit: the access came from user mode.
pub const PF_USER_MODE: u64 = 4;
/// Page-fault error code bit: the access was an instruction fetch.
pub const PF_INSTRUCTION_FETCH: u64 = 16;

/// The details of a page fault's error code: its cause, the kind of
/// access, the mode it came from, and whether it was an instruction fetch.
pub open spec fn page_fault_lines(error_code: u64) -> Seq<Seq<char>> {
    seq![
        "Error details:"@,
        "  Caused by: "@ + (if error_code & PF_PROTECTION_VIOLATION != 0 {
            "protection violation"@
        } else {
            "page not present"@
        }),
        "  Access type: "@ + (if error_code & PF_CAUSED_BY_WRITE != 0 {
            "write"@
        } else {
            "read"@
        }),
        "  Origin: "@ + (if error_code & PF_USER_MODE != 0 {
            "user mode"@
        } else {
            "kernel mode"@
        }),
        "  Instruction fetch: "@ + (if error_code & PF_INSTRUCTION_FETCH != 0 {
            "yes"@
        } else {
            "no"@
        }),
    ]
}

/// Writes a line made of a prefix and one of two words.
fn print_choice(con: &mut Console, prefix: &str, flag: bool, yes: &str, no: &str)
    requires
        old(con).wf(),
    ensures
        final(con).wf(),
        final(con).serial@ == old(con).serial@ + prefix@ + (if flag { yes@ } else { no@ }) + seq!['\n'],
{
    let mut line = string_of(prefix);
    push_str(&mut line, if flag { yes } else { no });
    vprintln_impl(con, line.as_str());
}

/// The text of the page-fault lines, one after another.
proof fn lemma_page_fault_text(error_code: u64)
    ensures
        ({
            let l = page_fault_lines(error_code);
            text_lines(l) == l[0] + seq!['\n'] + l[1] + seq!['\n'] + l[2] + seq!['\n'] + l[3] + seq!['\n'] + l[4]
                + seq!['\n']
        }),
{
    let l = page_fault_lines(error_code);
    reveal_with_fuel(text_lines, 6);
    assert(text_lines(l) =~= l[0] + seq!['\n'] + l[1] + seq!['\n'] + l[2] + seq!['\n'] + l[3] + seq!['\n'] + l[4]
        + seq!['\n']);
}

/// Writes the details of a page fault's error code.
#[verifier::rlimit(50)]
#[verifier::spinoff_prover]
pub fn report_page_fault_details(con: &mut Console, error_code: u64)
    requires
        old(con).wf(),
    ensures
        final(con).wf(),
        final(con).serial@ == old(con).serial@ + text_lines(page_fault_lines(error_code)),
{
    let ghost start = con.serial@;
    let ghost l = page_fault_lines(error_code);
    let protection = error_code & PF_PROTECTION_VIOLATION != 0;
    let write = error_code & PF_CAUSED_BY_WRITE != 0;
    let user = error_code & PF_USER_MODE != 0;
    let fetch = error_code & PF_INSTRUCTION_FETCH != 0;
    vprintln_impl(con, "Error details:");
    let ghost s0 = con.serial@;
    print_choice(con, "  Caused by: ", protection, "protection violation", "page not present");
    let ghost s1 = con.serial@;
    print_choice(con, "  Access type: ", write, "write", "read");
    let ghost s2 = con.serial@;
    print_choice(con, "  Origin: ", user, "user mode", "kernel mode");
    let ghost s3 = con.serial@;
    print_choice(con, "  Instruction fetch: ", fetch, "yes", "no");
    proof {
        lemma_page_fault_text(error_code);
        assert(s0 == start + l[0] + seq!['\n']);
        assert(s1 == s0 + l[1] + seq!['\n']);
        assert(s2 == s1 + l[2] + seq!['\n']);
        assert(s3 == s2 + l[3] + seq!['\n']);
        assert(con.serial@ == s3 + l[4] + seq!['\n']);
        assert(con.serial@ =~= start + text_lines(l));
    }
}

} // verus!
