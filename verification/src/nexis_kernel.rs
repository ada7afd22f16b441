//! The Nexis kernel: memory management, interrupts, scheduling and drivers.
pub mod drivers;
pub mod memory;
pub mod scheduler;
pub mod interrupt;

use vstd::prelude::*;
use crate::nexis_kernel::drivers::kb::Kb;
use crate::nexis_kernel::drivers::vga::{Console, after_write, text_lines, vprint, vprintln_impl};
use crate::nexis_kernel::interrupt::timer::{TimerState, init_timer};
use crate::nexis_kernel::memory::frame_allocator::{BitmapFrameAllocator, count_free};
use crate::nexis_kernel::memory::heap::{HeapAllocator, MAX_HEAP_SIZE, MIN_BLOCK_SIZE, alloc_aligned,
    aligned_alloc_effect, push_block};
use crate::nexis_kernel::memory::{FRAME_SIZE, frames_ok};
use crate::nexis_kernel::scheduler::preemptive::PreemptionState;
use crate::nexis_kernel::scheduler::{Scheduler, SwitchAction, spawn, task_yield, terminate_current_task,
    current_task_id, spawn_effect, terminate_effect, yield_effect};
use crate::text::{dec, push_dec, push_str, string_of, utf8_to_string};

verus! {

/// Kernel-wide errors.
#[derive(Debug, Clone, Copy, PartialEq, Eq, Structural)]
pub enum IronVeilError {
    OutOfMemory,
    InvalidAddress,
    TaskNotFound,
    NetworkError,
    PrivacyViolation,
    HardwareError,
    InvalidInput,
    PermissionDenied,
    ResourceBusy,
    NotImplemented,
}

impl IronVeilError {
    /// The error's message.
    pub fn message(&self) -> (r: &'static str)
        ensures
            *self == IronVeilError::OutOfMemory ==> r@ == "Out of memory"@,
            *self == IronVeilError::NotImplemented ==> r@ == "Not implemented"@,
    {
        match self {
            IronVeilError::OutOfMemory => "Out of memory",
            IronVeilError::InvalidAddress => "Invalid address",
            IronVeilError::TaskNotFound => "Task not found",
            IronVeilError::NetworkError => "Network error",
            IronVeilError::PrivacyViolation => "Privacy violation",
            IronVeilError::HardwareError => "Hardware error",
            IronVeilError::InvalidInput => "Invalid input",
            IronVeilError::PermissionDenied => "Permission denied",
            IronVeilError::ResourceBusy => "Resource busy",
            IronVeilError::NotImplemented => "Not implemented",
        }
    }
}

/// System calls by number.
#[derive(Debug, Clone, Copy, PartialEq, Eq, Structural)]
pub enum SyscallNumber {
    Exit,
    Write,
    Read,
    Open,
    Close,
    Yield,
    GetPid,
    Sleep,
    GetTime,
    AllocateMemory,
    FreeMemory,
    CreateTask,
    KillTask,
    WaitTask,
    SendMessage,
    ReceiveMessage,
}

/// The number of a system call.
pub open spec fn syscall_code(s: SyscallNumber) -> u64 {
    match s {
        SyscallNumber::Exit => 0,
        SyscallNumber::Write => 1,
        SyscallNumber::Read => 2,
        SyscallNumber::Open => 3,
        SyscallNumber::Close => 4,
        SyscallNumber::Yield => 5,
        SyscallNumber::GetPid => 6,
        SyscallNumber::Sleep => 7,
        SyscallNumber::GetTime => 8,
        SyscallNumber::AllocateMemory => 9,
        SyscallNumber::FreeMemory => 10,
        SyscallNumber::CreateTask => 11,
        SyscallNumber::KillTask => 12,
        SyscallNumber::WaitTask => 13,
        SyscallNumber::SendMessage => 14,
        SyscallNumber::ReceiveMessage => 15,
    }
}

impl SyscallNumber {
    /// The system call with number `n`, if there is one.
    pub fn from_number(n: u64) -> (r: Option<SyscallNumber>)
        ensures
            n < 16 <==> r is Some,
            r matches Some(s) ==> syscall_code(s) == n,
    {
        match n {
            0 => Some(SyscallNumber::Exit),
            1 => Some(SyscallNumber::Write),
            2 => Some(SyscallNumber::Read),
            3 => Some(SyscallNumber::Open),
            4 => Some(SyscallNumber::Close),
            5 => Some(SyscallNumber::Yield),
            6 => Some(SyscallNumber::GetPid),
            7 => Some(SyscallNumber::Sleep),
            8 => Some(SyscallNumber::GetTime),
            9 => Some(SyscallNumber::AllocateMemory),
            10 => Some(SyscallNumber::FreeMemory),
            11 => Some(SyscallNumber::CreateTask),
            12 => Some(SyscallNumber::KillTask),
            13 => Some(SyscallNumber::WaitTask),
            14 => Some(SyscallNumber::SendMessage),
            15 => Some(SyscallNumber::ReceiveMessage),
            _ => None,
        }
    }
}

/// Kernel state.
pub struct Kernel {
    pub console: Console,
    pub keyboard: Kb,
    pub timer: TimerState,
    pub preemption: PreemptionState,
    pub scheduler: Scheduler,
    pub frames: Option<BitmapFrameAllocator>,
    pub heap: Option<HeapAllocator>,
    /// Ticks since boot.
    pub uptime: u64,
    /// Entropy pool.
    pub entropy: [u64; 4],
    /// A register switch the caller must perform after a system call.
    pub pending_switch: Option<SwitchAction>,
}

impl Kernel {
    /// The kernel's parts are consistent.
    pub open spec fn wf(&self) -> bool {
        &&& self.console.wf()
        &&& self.keyboard.wf()
        &&& self.scheduler.wf()
        &&& frames_ok(self.frames)
        &&& self.heap matches Some(h) ==> h.inv()
    }
}

/// Bring up the drivers: the screen, the keyboard and the timer at 50 Hz.
pub fn init_drivers(k: &mut Kernel) -> (r: Result<(), IronVeilError>)
    requires
        old(k).wf(),
    ensures
        final(k).wf(),
        r is Ok,
        final(k).console.vga.is_init(),
        final(k).keyboard.initialized,
        final(k).timer.frequency == 50,
        final(k).console.serial@ == old(k).console.serial@ + "Device drivers initialized"@ + seq!['\n'],
{
    let _ = crate::nexis_kernel::drivers::vga::init(&mut k.console);
    let _ = crate::nexis_kernel::drivers::kb::init(&mut k.keyboard);
    let _ = init_timer(&mut k.timer, 50);
    vprintln_impl(&mut k.console, "Device drivers initialized");
    Ok(())
}

/// Announces the scheduler.
pub fn init_scheduler(k: &mut Kernel) -> (r: Result<(), IronVeilError>)
    requires
        old(k).wf(),
    ensures
        final(k).wf(),
        r is Ok,
        final(k).console.serial@ == old(k).console.serial@ + "Task scheduler initialized"@ + seq!['\n'],
        final(k).scheduler == old(k).scheduler,
{
    vprintln_impl(&mut k.console, "Task scheduler initialized");
    Ok(())
}

/// Entropy pool after mixing in a timestamp counter value and an address:
/// the words are xored with the counter, the address, the uptime and the
/// counter times the golden-ratio constant, then rotated by one.
pub open spec fn mixed_pool(pool: [u64; 4], tsc: u64, addr: u64, uptime: u64) -> Seq<u64> {
    let p0 = pool@[0] ^ tsc;
    let p1 = pool@[1] ^ addr;
    let p2 = pool@[2] ^ uptime;
    let p3 = pool@[3] ^ ((tsc * 0x9e3779b97f4a7c15u64 as int) % 0x1_0000_0000_0000_0000) as u64;
    seq![p1, p2, p3, p0]
}

/// Mixes a timestamp-counter reading and an address into the entropy pool.
pub fn collect_entropy(k: &mut Kernel, tsc: u64, addr: u64)
    ensures
        final(k).entropy@ == mixed_pool(old(k).entropy, tsc, addr, old(k).uptime),
        final(k).uptime == old(k).uptime,
        final(k).console == old(k).console,
        final(k).scheduler == old(k).scheduler,
{
    let uptime = k.uptime;
    let p0 = k.entropy[0] ^ tsc;
    let p1 = k.entropy[1] ^ addr;
    let p2 = k.entropy[2] ^ uptime;
    let p3 = k.entropy[3] ^ tsc.wrapping_mul(0x9e3779b97f4a7c15);
    k.entropy = [p1, p2, p3, p0];
    assert(k.entropy@ =~= mixed_pool(old(k).entropy, tsc, addr, old(k).uptime));
}

/// A random word: the pool is stirred, then its words are xored together.
pub fn get_random_u64(k: &mut Kernel, tsc: u64, addr: u64) -> (r: u64)
    ensures
        final(k).entropy@ == mixed_pool(old(k).entropy, tsc, addr, old(k).uptime),
        r == final(k).entropy@[0] ^ final(k).entropy@[1] ^ final(k).entropy@[2] ^ final(k).entropy@[3],
{
    collect_entropy(k, tsc, addr);
    k.entropy[0] ^ k.entropy[1] ^ k.entropy[2] ^ k.entropy[3]
}

/// The system tick: uptime advances and the pool is stirred.
pub fn system_tick(k: &mut Kernel, tsc: u64, addr: u64)
    requires
        old(k).uptime < u64::MAX,
    ensures
        final(k).uptime == old(k).uptime + 1,
        final(k).entropy@ == mixed_pool(old(k).entropy, tsc, addr, (old(k).uptime + 1) as u64),
{
    k.uptime = k.uptime + 1;
    collect_entropy(k, tsc, addr);
}

/// Test setup: nothing to do.
pub fn init_for_testing() -> (r: Result<(), IronVeilError>)
    ensures
        r is Ok,
{
    Ok(())
}

/// What system call `c` with arguments `a1`, `a2`, `a3` (and, for `Write`,
/// the user buffer's bytes `data`) does to the kernel `k0`, leaving `k1`,
/// and returns: `Exit` ends the running task, `Yield` and `Sleep` yield, a
/// `Write` to standard output or error prints valid UTF-8, `AllocateMemory`,
/// `FreeMemory` and `CreateTask` go to the heap and the scheduler, `GetPid`
/// and `GetTime` only read; the rest are not implemented.  A failing call
/// changes nothing.
pub open spec fn syscall_effect(
    k0: Kernel,
    k1: Kernel,
    c: SyscallNumber,
    a1: u64,
    a2: u64,
    a3: u64,
    data: Seq<u8>,
    r: Result<u64, IronVeilError>,
) -> bool {
    match c {
        SyscallNumber::Exit => r == Ok::<u64, IronVeilError>(0) && k1 == (Kernel {
            scheduler: k1.scheduler,
            pending_switch: k1.pending_switch,
            ..k0
        }) && terminate_effect(k0.scheduler, k1.scheduler, k1.pending_switch),
        SyscallNumber::Yield | SyscallNumber::Sleep => r == Ok::<u64, IronVeilError>(0) && k1 == (Kernel {
            scheduler: k1.scheduler,
            pending_switch: k1.pending_switch,
            ..k0
        }) && yield_effect(k0.scheduler, k1.scheduler, k1.pending_switch),
        SyscallNumber::Write => if !(a1 == 1 || a1 == 2) {
            r == Err::<u64, IronVeilError>(IronVeilError::NotImplemented) && k1 == k0
        } else if !vstd::utf8::valid_utf8(data) {
            r == Err::<u64, IronVeilError>(IronVeilError::InvalidInput) && k1 == k0
        } else {
            &&& r == Ok::<u64, IronVeilError>(a3)
            &&& k1 == (Kernel { console: k1.console, ..k0 })
            &&& k1.console.serial@ == k0.console.serial@ + vstd::utf8::decode_utf8(data)
            &&& ({
                let v = k0.console.vga;
                let (c, row, b) = after_write(v.col(), v.line(), v.screen(), v.attr(), vstd::utf8::decode_utf8(
                    data));
                &&& k1.console.vga.col() == c
                &&& k1.console.vga.line() == row
                &&& k1.console.vga.screen() == b
                &&& k1.console.vga.attr() == v.attr()
            })
        },
        SyscallNumber::GetPid => k1 == k0 && r == (match k0.scheduler.current {
            Some(i) => Ok::<u64, IronVeilError>(k0.scheduler.tasks()[i as int].tid.0),
            None => Err(IronVeilError::TaskNotFound),
        }),
        SyscallNumber::GetTime => k1 == k0 && r == Ok::<u64, IronVeilError>(k0.uptime),
        SyscallNumber::AllocateMemory => {
            let size = a1 as usize;
            let align = a2 as usize;
            if k0.heap matches Some(h) && (align > usize::MAX - MAX_HEAP_SIZE || h.start() > usize::MAX
                - MAX_HEAP_SIZE - align) {
                r == Err::<u64, IronVeilError>(IronVeilError::InvalidInput) && k1 == k0
            } else {
                &&& k1 == (Kernel { heap: k1.heap, frames: k1.frames, ..k0 })
                &&& aligned_alloc_effect(k0.heap, k0.frames, k1.heap, k1.frames, size, align, match r {
                    Ok(a) => Some(a as usize),
                    Err(_) => None,
                })
                &&& r is Err ==> r == Err::<u64, IronVeilError>(IronVeilError::OutOfMemory)
            }
        },
        SyscallNumber::FreeMemory => {
            let addr = a1 as usize;
            let size = a2 as usize;
            let req = if size > MIN_BLOCK_SIZE { size } else { MIN_BLOCK_SIZE };
            match k0.heap {
                None => r == Err::<u64, IronVeilError>(IronVeilError::InvalidAddress) && k1 == k0,
                Some(h) => if addr < h.start() || addr > usize::MAX - req || addr + req > h.start() + h.size()
                    || req > h.allocated() {
                    r == Err::<u64, IronVeilError>(IronVeilError::InvalidAddress) && k1 == k0
                } else {
                    &&& r == Ok::<u64, IronVeilError>(0)
                    &&& k1 == (Kernel { heap: k1.heap, ..k0 })
                    &&& k1.heap matches Some(h2) && h2.inv() && h2.start() == h.start() && h2.size() == h.size()
                        && h2.allocated() == h.allocated() - req && h2.blocks() == push_block(h.blocks(),
                        addr as int, req as int)
                },
            }
        },
        SyscallNumber::CreateTask => {
            &&& k1 == (Kernel { scheduler: k1.scheduler, frames: k1.frames, ..k0 })
            &&& exists|slot: Option<usize>| #[trigger] spawn_effect(k0.scheduler, k1.scheduler, k0.frames,
                k1.frames, ((a2 as usize) / FRAME_SIZE) as usize, slot) && (slot is Some ==> r == Ok::<
                u64,
                IronVeilError,
            >(k0.scheduler.next_tid)) && (slot is None ==> r == Err::<u64, IronVeilError>(
                IronVeilError::OutOfMemory))
        },
        _ => r == Err::<u64, IronVeilError>(IronVeilError::NotImplemented) && k1 == k0,
    }
}

/// Carries out a system call.  For `Write` the caller passes the bytes of
/// the user buffer (`arg2`, `arg3`) in `user_data`.  A switch of tasks is
/// left in `pending_switch`.
pub fn handle_syscall(k: &mut Kernel, syscall: SyscallNumber, arg1: u64, arg2: u64, arg3: u64, user_data: &[u8]) -> (r: Result<u64, IronVeilError>)
    requires
        old(k).wf(),
        old(k).scheduler.next_tid < u64::MAX,
    ensures
        final(k).wf(),
        syscall_effect(*old(k), *final(k), syscall, arg1, arg2, arg3, user_data@, r),
{
    match syscall {
        SyscallNumber::Exit => {
            k.pending_switch = terminate_current_task(&mut k.scheduler);
            Ok(0)
        },
        SyscallNumber::Write => {
            if arg1 == 1 || arg1 == 2 {
                match utf8_to_string(user_data) {
                    Some(s) => {
                        vprint(&mut k.console, s.as_str());
                        Ok(arg3)
                    },
                    None => Err(IronVeilError::InvalidInput),
                }
            } else {
                Err(IronVeilError::NotImplemented)
            }
        },
        SyscallNumber::Yield => {
            k.pending_switch = task_yield(&mut k.scheduler);
            Ok(0)
        },
        SyscallNumber::GetPid => match current_task_id(&k.scheduler) {
            Some(t) => Ok(t.0),
            None => Err(IronVeilError::TaskNotFound),
        },
        SyscallNumber::GetTime => Ok(k.uptime),
        SyscallNumber::AllocateMemory => {
            let size = #[verifier::truncate] (arg1 as usize);
            let align = #[verifier::truncate] (arg2 as usize);
            if let Some(h) = &k.heap {
                if align > usize::MAX - MAX_HEAP_SIZE || h.start_addr() > usize::MAX - MAX_HEAP_SIZE - align {
                    return Err(IronVeilError::InvalidInput);
                }
            }
            match alloc_aligned(&mut k.heap, &mut k.frames, size, align) {
                Some(addr) => Ok(addr as u64),
                None => Err(IronVeilError::OutOfMemory),
            }
        },
        SyscallNumber::FreeMemory => {
            let addr = #[verifier::truncate] (arg1 as usize);
            let size = #[verifier::truncate] (arg2 as usize);
            let req = if size > MIN_BLOCK_SIZE { size } else { MIN_BLOCK_SIZE };
            match &mut k.heap {
                Some(h) => {
                    if addr < h.start_addr() || addr > usize::MAX - req || addr + req > h.end_addr()
                        || req > h.allocated_bytes() {
                        return Err(IronVeilError::InvalidAddress);
                    }
                    h.deallocate(addr, size);
                    Ok(0)
                },
                None => Err(IronVeilError::InvalidAddress),
            }
        },
        SyscallNumber::CreateTask => {
            let entry = #[verifier::truncate] (arg1 as usize);
            let stack_size = #[verifier::truncate] (arg2 as usize);
            let pages = stack_size / FRAME_SIZE;
            match spawn(&mut k.scheduler, entry, &mut k.frames, pages) {
                Some(slot) => Ok(k.scheduler.table.tasks[slot].tid.0),
                None => Err(IronVeilError::OutOfMemory),
            }
        },
        SyscallNumber::Sleep => {
            k.pending_switch = task_yield(&mut k.scheduler);
            Ok(0)
        },
        _ => Err(IronVeilError::NotImplemented),
    }
}

/// The system-call entry: an unknown number, or any error, gives `u64::MAX`;
/// a known one is carried out as `syscall_effect` says.
pub fn syscall_handler_rust(k: &mut Kernel, syscall_num: u64, arg1: u64, arg2: u64, arg3: u64, user_data: &[u8]) -> (r: u64)
    requires
        old(k).wf(),
        old(k).scheduler.next_tid < u64::MAX,
    ensures
        final(k).wf(),
        syscall_num >= 16 ==> r == u64::MAX && *final(k) == *old(k),
        syscall_num < 16 ==> exists|c: SyscallNumber, res: Result<u64, IronVeilError>|
            syscall_code(c) == syscall_num && #[trigger] syscall_effect(*old(k), *final(k), c, arg1, arg2, arg3,
                user_data@, res) && r == (match res {
                Ok(v) => v,
                Err(_) => u64::MAX,
            }),
        syscall_num == 8 ==> r == old(k).uptime,
        syscall_num == 2 ==> r == u64::MAX,
{
    let syscall = match SyscallNumber::from_number(syscall_num) {
        Some(s) => s,
        None => {
            return u64::MAX;
        },
    };
    match handle_syscall(k, syscall, arg1, arg2, arg3, user_data) {
        Ok(result) => result,
        Err(_) => u64::MAX,
    }
}

/// The lines of the state summary: the free frames, the uptime and the
/// running task.
pub open spec fn dump_lines(k: Kernel) -> Seq<Seq<char>> {
    let free: nat = match k.frames {
        Some(a) => count_free(a@),
        None => 0,
    };
    seq![
        "\n--- System State Dump ---"@,
        "Memory: "@ + dec(free) + " free frames"@,
        "Uptime: "@ + dec(k.uptime as nat) + " ticks"@,
        match k.scheduler.current {
            Some(i) => "Current task: ID="@ + dec(k.scheduler.tasks()[i as int].tid.0 as nat),
            None => "No current task"@,
        },
        "--- End Dump ---"@,
    ]
}

/// Writes the state summary shown after a panic.
pub fn dump_system_state(k: &mut Kernel)
    requires
        old(k).wf(),
    ensures
        final(k).wf(),
        final(k).console.serial@ == old(k).console.serial@ + text_lines(dump_lines(*old(k))),
        final(k).frames == old(k).frames,
        final(k).scheduler == old(k).scheduler,
        final(k).uptime == old(k).uptime,
{
    let ghost start = k.console.serial@;
    let ghost lines = dump_lines(*k);
    vprintln_impl(&mut k.console, "\n--- System State Dump ---");
    let ghost l0 = k.console.serial@;
    let free = crate::nexis_kernel::memory::free_frame_count(&k.frames);
    let mut line = string_of("Memory: ");
    push_dec(&mut line, free as u64);
    push_str(&mut line, " free frames");
    vprintln_impl(&mut k.console, line.as_str());
    let ghost l1 = k.console.serial@;
    let mut up = string_of("Uptime: ");
    push_dec(&mut up, k.uptime);
    push_str(&mut up, " ticks");
    vprintln_impl(&mut k.console, up.as_str());
    let ghost l2 = k.console.serial@;
    match current_task_id(&k.scheduler) {
        Some(t) => {
            let mut c = string_of("Current task: ID=");
            push_dec(&mut c, t.0);
            vprintln_impl(&mut k.console, c.as_str());
        },
        None => vprintln_impl(&mut k.console, "No current task"),
    }
    let ghost l3 = k.console.serial@;
    vprintln_impl(&mut k.console, "--- End Dump ---");
    proof {
        reveal_with_fuel(text_lines, 6);
        assert(l0 == start + lines[0] + seq!['\n']);
        assert(l1 == l0 + lines[1] + seq!['\n']);
        assert(l2 == l1 + lines[2] + seq!['\n']);
        assert(l3 == l2 + lines[3] + seq!['\n']);
        assert(k.console.serial@ == l3 + lines[4] + seq!['\n']);
        assert(lines.drop_last().drop_last().drop_last().drop_last().drop_last() =~= Seq::<Seq<char>>::empty());
        assert(text_lines(lines) =~= lines[0] + seq!['\n'] + lines[1] + seq!['\n'] + lines[2] + seq!['\n']
            + lines[3] + seq!['\n'] + lines[4] + seq!['\n']);
        assert(k.console.serial@ =~= start + text_lines(lines));
    }
}

} // verus!
