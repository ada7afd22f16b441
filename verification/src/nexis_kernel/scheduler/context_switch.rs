//! Stack-pointer bookkeeping around context switches.
use vstd::prelude::*;

verus! {

/// Initial stack pointer of a task whose stack ends at `stack_top`: the top
/// aligned down to 16 bytes, less an eight-word initial frame (padding, the
/// entry point and six callee-saved registers), so the result stays 16-byte
/// aligned.  The frame is `task::initial_frame(entry_point)`.
pub fn init_task_context(stack_top: usize, entry_point: usize) -> (r: usize)
    requires
        stack_top - stack_top % 16 >= 64,
    ensures
        r == stack_top - stack_top % 16 - 64,
        r % 16 == 0,
{
    proof {
        assert(stack_top & !0xFusize == stack_top - stack_top % 16) by (bit_vector);
    }
    let sp = stack_top & !0xF;
    sp - 64
}

/// Context-switch counters.
#[derive(Debug, Clone, Copy, PartialEq, Eq, Structural)]
pub struct ContextSwitchStats {
    /// All switches.
    pub total_switches: u64,
    /// Switches to a task that had not run before.
    pub new_task_switches: u64,
    /// Switches between running tasks.
    pub task_to_task_switches: u64,
}

impl Default for ContextSwitchStats {
    fn default() -> (r: Self)
        ensures
            r == (ContextSwitchStats { total_switches: 0, new_task_switches: 0, task_to_task_switches: 0 }),
    {
        ContextSwitchStats { total_switches: 0, new_task_switches: 0, task_to_task_switches: 0 }
    }
}

/// Counts one context switch.
pub fn record_context_switch(stats: &mut ContextSwitchStats, is_new_task: bool)
    requires
        old(stats).total_switches < u64::MAX,
        old(stats).new_task_switches < u64::MAX,
        old(stats).task_to_task_switches < u64::MAX,
    ensures
        final(stats).total_switches == old(stats).total_switches + 1,
        final(stats).new_task_switches == old(stats).new_task_switches + (if is_new_task { 1int } else { 0 }),
        final(stats).task_to_task_switches == old(stats).task_to_task_switches + (if is_new_task { 0int } else { 1 }),
{
    stats.total_switches = stats.total_switches + 1;
    if is_new_task {
        stats.new_task_switches = stats.new_task_switches + 1;
    } else {
        stats.task_to_task_switches = stats.task_to_task_switches + 1;
    }
}

/// A copy of the counters.
pub fn get_context_switch_stats(stats: &ContextSwitchStats) -> (r: ContextSwitchStats)
    ensures
        r == *stats,
{
    *stats
}

/// Clears the counters.
pub fn reset_context_switch_stats(stats: &mut ContextSwitchStats)
    ensures
        *final(stats) == (ContextSwitchStats { total_switches: 0, new_task_switches: 0, task_to_task_switches: 0 }),
{
    *stats = ContextSwitchStats::default();
}

/// Whether `sp` looks like a saved stack pointer of the stack
/// `[stack_base, stack_base + stack_size)`: inside it, 16-byte aligned, and
/// leaving at least 256 bytes unused.
pub fn validate_stack_pointer(sp: usize, stack_base: usize, stack_size: usize) -> (r: bool)
    requires
        stack_base + stack_size <= usize::MAX,
        !(stack_base <= sp < stack_base + stack_size && sp % 16 == 0 && stack_size < 256),
    ensures
        r == (stack_base <= sp < stack_base + stack_size && sp % 16 == 0 && (stack_base
            + stack_size) - sp <= stack_size - 256),
{
    if sp < stack_base || sp >= stack_base + stack_size {
        return false;
    }
    proof {
        assert(sp & 0xFusize == sp % 16) by (bit_vector);
    }
    if sp & 0xF != 0 {
        return false;
    }
    let used_space = (stack_base + stack_size) - sp;
    if used_space > stack_size - 256 {
        return false;
    }
    true
}

/// A context switch as recorded for debugging.
#[derive(Debug, Clone, Copy, PartialEq, Eq, Structural)]
pub struct ContextSwitchDebug {
    pub from_task_sp: usize,
    pub to_task_sp: usize,
    pub switch_count: u64,
    pub timestamp: u64,
}

/// Whether context-switch debugging is on.
pub struct DebugSwitch {
    pub enabled: bool,
}

/// Turns context-switch debugging on or off.
pub fn set_debug_enabled(d: &mut DebugSwitch, enabled: bool)
    ensures
        final(d).enabled == enabled,
{
    d.enabled = enabled;
}

/// Whether context-switch debugging is on.
pub fn is_debug_enabled(d: &DebugSwitch) -> (r: bool)
    ensures
        r == d.enabled,
{
    d.enabled
}

/// The debug record of a switch from `from_sp` to `to_sp`, when debugging is on.
pub fn debug_context_switch(d: &DebugSwitch, stats: &ContextSwitchStats, from_sp: usize, to_sp: usize, now: u64) -> (r: Option<ContextSwitchDebug>)
    ensures
        !d.enabled ==> r is None,
        d.enabled ==> r == Some(ContextSwitchDebug { from_task_sp: from_sp, to_task_sp: to_sp,
            switch_count: stats.total_switches, timestamp: now }),
{
    if d.enabled {
        Some(ContextSwitchDebug { from_task_sp: from_sp, to_task_sp: to_sp, switch_count: stats.total_switches, timestamp: now })
    } else {
        None
    }
}

} // verus!
