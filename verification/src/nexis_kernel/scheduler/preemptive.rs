//! Time-slice preemption on top of the round-robin scheduler.
use vstd::prelude::*;
use crate::nexis_kernel::interrupt::timer::{TimerState, tick_room, timer_tick};
use crate::nexis_kernel::scheduler::{Scheduler, SwitchAction, task_yield, yield_effect};

verus! {

/// Timer ticks per time slice.
pub const TIME_SLICE_TICKS: u64 = 10;

/// Preemption state.
pub struct PreemptionState {
    /// Whether preemption may happen.
    pub enabled: bool,
    /// Ticks spent in the current time slice.
    pub slice_ticks: u64,
    /// A preemption has been requested.
    pub pending: bool,
    /// Preemptions performed.
    pub count: u64,
}

/// Preemption statistics.
#[derive(Debug, Clone, Copy, PartialEq, Eq, Structural)]
pub struct PreemptionStats {
    pub total_preemptions: u64,
    pub time_slice_ticks: u64,
    pub current_slice_ticks: u64,
    pub preemption_enabled: bool,
    pub preemption_pending: bool,
}

impl PreemptionState {
    /// Preemption enabled, nothing pending, nothing counted.
    pub fn new() -> (r: Self)
        ensures
            r.enabled && r.slice_ticks == 0 && !r.pending && r.count == 0,
    {
        PreemptionState { enabled: true, slice_ticks: 0, pending: false, count: 0 }
    }
}

/// Starts a fresh time slice with preemption enabled.
pub fn init(p: &mut PreemptionState)
    ensures
        final(p).enabled,
        final(p).slice_ticks == 0,
        final(p).pending == old(p).pending,
        final(p).count == old(p).count,
{
    reset_time_slice(p);
    enable_preemption(p);
}

/// Enables preemption.
pub fn enable_preemption(p: &mut PreemptionState)
    ensures
        final(p).enabled,
        final(p).slice_ticks == old(p).slice_ticks,
        final(p).pending == old(p).pending,
        final(p).count == old(p).count,
{
    p.enabled = true;
}

/// Disables preemption.
pub fn disable_preemption(p: &mut PreemptionState)
    ensures
        !final(p).enabled,
        final(p).slice_ticks == old(p).slice_ticks,
        final(p).pending == old(p).pending,
        final(p).count == old(p).count,
{
    p.enabled = false;
}

/// Whether preemption is enabled.
pub fn is_preemption_enabled(p: &PreemptionState) -> (r: bool)
    ensures
        r == p.enabled,
{
    p.enabled
}

/// Starts a new time slice.
pub fn reset_time_slice(p: &mut PreemptionState)
    ensures
        final(p).slice_ticks == 0,
        final(p).enabled == old(p).enabled,
        final(p).pending == old(p).pending,
        final(p).count == old(p).count,
{
    p.slice_ticks = 0;
}

/// Requests a preemption, also through the timer's reschedule flag.
pub fn request_preemption(p: &mut PreemptionState, t: &mut TimerState)
    ensures
        final(p).pending,
        final(t).need_reschedule,
        final(p).enabled == old(p).enabled,
        final(p).slice_ticks == old(p).slice_ticks,
        final(p).count == old(p).count,
        final(t).tick_count == old(t).tick_count,
        final(t).frequency == old(t).frequency,
        final(t).system_time_ms == old(t).system_time_ms,
        final(t).last_tick_time == old(t).last_tick_time,
{
    p.pending = true;
    t.need_reschedule = true;
}

/// Timer tick: counts it, and when preemption is enabled advances the time
/// slice, requesting a preemption once the slice is used up.
pub fn handle_timer_tick(p: &mut PreemptionState, t: &mut TimerState)
    requires
        tick_room(*old(t)),
        old(p).slice_ticks < u64::MAX,
    ensures
        final(t).tick_count == old(t).tick_count.wrapping_add(1),
        final(t).need_reschedule,
        final(p).enabled == old(p).enabled,
        final(p).count == old(p).count,
        !old(p).enabled ==> final(p).slice_ticks == old(p).slice_ticks && final(p).pending == old(p).pending,
        old(p).enabled ==> final(p).slice_ticks == old(p).slice_ticks + 1 && final(p).pending == (old(p).pending
            || old(p).slice_ticks + 1 >= TIME_SLICE_TICKS),
{
    timer_tick(t);
    if !is_preemption_enabled(p) {
        return;
    }
    p.slice_ticks = p.slice_ticks + 1;
    if p.slice_ticks >= TIME_SLICE_TICKS {
        request_preemption(p, t);
    }
}

/// Whether a preemption is pending.
pub fn is_preemption_pending(p: &PreemptionState) -> (r: bool)
    ensures
        r == p.pending,
{
    p.pending
}

/// Clears the pending preemption and the timer's reschedule flag.
pub fn clear_preemption_pending(p: &mut PreemptionState, t: &mut TimerState)
    ensures
        !final(p).pending,
        !final(t).need_reschedule,
        final(p).enabled == old(p).enabled,
        final(p).slice_ticks == old(p).slice_ticks,
        final(p).count == old(p).count,
        final(t).tick_count == old(t).tick_count,
        final(t).frequency == old(t).frequency,
{
    p.pending = false;
    t.need_reschedule = false;
}

/// At a safe point: if a preemption was requested (here or through the
/// timer), both requests are taken; when preemption is enabled the task
/// yields and a new slice starts, otherwise the request is put back.
pub fn check_preemption(p: &mut PreemptionState, t: &mut TimerState, s: &mut Scheduler) -> (r: Option<SwitchAction>)
    requires
        old(s).wf(),
        old(p).count < u64::MAX,
    ensures
        final(s).wf(),
        final(p).enabled == old(p).enabled,
        final(t).tick_count == old(t).tick_count,
        final(t).frequency == old(t).frequency,
        !(old(p).pending || old(t).need_reschedule) ==> r is None && *final(s) == *old(s)
            && final(p).count == old(p).count && final(p).slice_ticks == old(p).slice_ticks
            && !final(p).pending && !final(t).need_reschedule,
        (old(p).pending || old(t).need_reschedule) && !old(p).enabled ==> r is None && *final(s)
            == *old(s) && final(p).pending && final(t).need_reschedule && final(p).count == old(p).count
            && final(p).slice_ticks == old(p).slice_ticks,
        (old(p).pending || old(t).need_reschedule) && old(p).enabled ==> final(p).count == old(p).count
            + 1 && final(p).slice_ticks == 0 && !final(p).pending && !final(t).need_reschedule
            && yield_effect(*old(s), *final(s), r),
{
    let our_flag = p.pending;
    p.pending = false;
    let pit_flag = t.need_reschedule;
    t.need_reschedule = false;
    if our_flag || pit_flag {
        handle_preemption(p, t, s)
    } else {
        None
    }
}

/// Performs a requested preemption.
fn handle_preemption(p: &mut PreemptionState, t: &mut TimerState, s: &mut Scheduler) -> (r: Option<SwitchAction>)
    requires
        old(s).wf(),
        old(p).count < u64::MAX,
    ensures
        final(s).wf(),
        final(p).enabled == old(p).enabled,
        final(t).tick_count == old(t).tick_count,
        final(t).frequency == old(t).frequency,
        !old(p).enabled ==> r is None && *final(s) == *old(s) && final(p).pending && final(t).need_reschedule
            && final(p).count == old(p).count && final(p).slice_ticks == old(p).slice_ticks,
        old(p).enabled ==> final(p).count == old(p).count + 1 && final(p).slice_ticks == 0
            && final(p).pending == old(p).pending && final(t).need_reschedule == old(t).need_reschedule
            && yield_effect(*old(s), *final(s), r),
{
    if !is_preemption_enabled(p) {
        request_preemption(p, t);
        return None;
    }
    p.count = p.count + 1;
    reset_time_slice(p);
    task_yield(s)
}

/// Disables preemption and returns whether it was enabled.
pub fn enter_critical_section(p: &mut PreemptionState) -> (r: bool)
    ensures
        entered(*old(p), *final(p), r),
        r == old(p).enabled,
        !final(p).enabled,
        final(p).slice_ticks == old(p).slice_ticks,
        final(p).pending == old(p).pending,
        final(p).count == old(p).count,
{
    let was_enabled = is_preemption_enabled(p);
    disable_preemption(p);
    was_enabled
}

/// Entering a critical section: preemption was as `was` says and is now
/// off; nothing else changed.
pub open spec fn entered(before: PreemptionState, after: PreemptionState, was: bool) -> bool {
    &&& was == before.enabled
    &&& !after.enabled
    &&& after.slice_ticks == before.slice_ticks
    &&& after.pending == before.pending
    &&& after.count == before.count
}

/// Leaving a critical section entered when preemption was as `was` says:
/// it is on again if it was, otherwise left as it is.
pub open spec fn left(before: PreemptionState, after: PreemptionState, was: bool) -> bool {
    if was { after.enabled } else { after.enabled == before.enabled }
}

/// Leaving a critical section restores the preemption state found on
/// entering it.
pub proof fn law_critical_section_restores(p0: PreemptionState, p1: PreemptionState, p2: PreemptionState, was: bool)
    requires
        entered(p0, p1, was),
        left(p1, p2, was),
    ensures
        p2.enabled == p0.enabled,
{
}

/// Restores preemption when it was enabled on entry, then handles any
/// pending preemption.
pub fn exit_critical_section(p: &mut PreemptionState, t: &mut TimerState, s: &mut Scheduler, was_enabled: bool) -> (r: Option<SwitchAction>)
    requires
        old(s).wf(),
        old(p).count < u64::MAX,
    ensures
        final(s).wf(),
        left(*old(p), *final(p), was_enabled),
        !was_enabled ==> r is None && *final(s) == *old(s) && final(p).enabled == old(p).enabled
            && final(p).pending == old(p).pending && final(p).count == old(p).count,
        was_enabled ==> final(p).enabled && !final(p).pending && !final(t).need_reschedule,
        was_enabled && !(old(p).pending || old(t).need_reschedule) ==> r is None && *final(s) == *old(s)
            && final(p).count == old(p).count && final(p).slice_ticks == old(p).slice_ticks,
        was_enabled && (old(p).pending || old(t).need_reschedule) ==> final(p).count == old(p).count + 1
            && final(p).slice_ticks == 0 && yield_effect(*old(s), *final(s), r),
{
    if was_enabled {
        enable_preemption(p);
        check_preemption(p, t, s)
    } else {
        None
    }
}

/// Ticks left in the current time slice.
pub fn get_remaining_ticks(p: &PreemptionState) -> (r: u64)
    ensures
        r == (if p.slice_ticks >= TIME_SLICE_TICKS { 0 } else { TIME_SLICE_TICKS - p.slice_ticks }),
{
    if p.slice_ticks >= TIME_SLICE_TICKS {
        0
    } else {
        TIME_SLICE_TICKS - p.slice_ticks
    }
}

/// A snapshot of the preemption state.
pub fn get_preemption_stats(p: &PreemptionState) -> (r: PreemptionStats)
    ensures
        r == (PreemptionStats { total_preemptions: p.count, time_slice_ticks: TIME_SLICE_TICKS,
            current_slice_ticks: p.slice_ticks, preemption_enabled: p.enabled,
            preemption_pending: p.pending }),
{
    PreemptionStats {
        total_preemptions: p.count,
        time_slice_ticks: TIME_SLICE_TICKS,
        current_slice_ticks: p.slice_ticks,
        preemption_enabled: is_preemption_enabled(p),
        preemption_pending: is_preemption_pending(p),
    }
}

/// A critical section: preemption is off until it is left.
pub struct CriticalSection {
    pub was_enabled: bool,
}

impl CriticalSection {
    /// Enters a critical section.
    pub fn enter(p: &mut PreemptionState) -> (r: Self)
        ensures
            r.was_enabled == old(p).enabled,
            !final(p).enabled,
            final(p).slice_ticks == old(p).slice_ticks,
            final(p).pending == old(p).pending,
            final(p).count == old(p).count,
    {
        CriticalSection { was_enabled: enter_critical_section(p) }
    }

    /// Leaves the critical section, restoring the preemption state.
    pub fn leave(self, p: &mut PreemptionState, t: &mut TimerState, s: &mut Scheduler) -> (r: Option<SwitchAction>)
        requires
            old(s).wf(),
            old(p).count < u64::MAX,
        ensures
            final(s).wf(),
            !self.was_enabled ==> r is None && *final(s) == *old(s) && final(p).enabled == old(p).enabled,
            self.was_enabled ==> final(p).enabled && !final(p).pending && !final(t).need_reschedule,
            self.was_enabled && !(old(p).pending || old(t).need_reschedule) ==> r is None && *final(s)
                == *old(s) && final(p).count == old(p).count,
            self.was_enabled && (old(p).pending || old(t).need_reschedule) ==> final(p).count == old(p).count
                + 1 && yield_effect(*old(s), *final(s), r),
    {
        exit_critical_section(p, t, s, self.was_enabled)
    }
}

/// Handles a pending preemption, then yields.  The switches come in order.
pub fn yield_with_preemption_check(p: &mut PreemptionState, t: &mut TimerState, s: &mut Scheduler) -> (r: Vec<SwitchAction>)
    requires
        old(s).wf(),
        old(p).count < u64::MAX,
    ensures
        final(s).wf(),
        r@.len() <= 2,
        final(p).enabled == old(p).enabled,
        final(t).tick_count == old(t).tick_count,
        final(t).frequency == old(t).frequency,
        !(old(p).pending || old(t).need_reschedule) ==> final(p).count == old(p).count
            && final(p).slice_ticks == old(p).slice_ticks && !final(p).pending && !final(t).need_reschedule,
        (old(p).pending || old(t).need_reschedule) && !old(p).enabled ==> final(p).pending
            && final(t).need_reschedule && final(p).count == old(p).count
            && final(p).slice_ticks == old(p).slice_ticks,
        (old(p).pending || old(t).need_reschedule) && old(p).enabled ==> final(p).count == old(p).count
            + 1 && final(p).slice_ticks == 0 && !final(p).pending && !final(t).need_reschedule,
        old(s).current is None && !((old(p).pending || old(t).need_reschedule) && old(p).enabled)
            ==> r@.len() == 0 && *final(s) == *old(s),
        exists|mid: Scheduler, a1: Option<SwitchAction>, a2: Option<SwitchAction>|
            #[trigger] two_yields(*old(s), mid, *final(s), a1, a2, *old(p), *old(t)) && r@ == action_seq(a1)
                + action_seq(a2),
{
    let ghost before = *s;
    let mut actions: Vec<SwitchAction> = Vec::new();
    let a1 = check_preemption(p, t, s);
    let ghost mid = *s;
    if let Some(a) = a1 {
        actions.push(a);
    }
    let a2 = task_yield(s);
    if let Some(a) = a2 {
        actions.push(a);
    }
    proof {
        assert(two_yields(before, mid, *s, a1, a2, *old(p), *old(t)));
        assert(actions@ =~= action_seq(a1) + action_seq(a2));
    }
    actions
}

/// The switch a step asks for, as a sequence of none or one.
pub open spec fn action_seq(a: Option<SwitchAction>) -> Seq<SwitchAction> {
    match a {
        Some(x) => seq![x],
        None => Seq::empty(),
    }
}

/// A preemption check taking the scheduler from `before` to `mid` with
/// switch `a1` (a yield when a preemption was requested in `p` or `t` and
/// preemption is enabled, else nothing), then a yield from `mid` to `after`
/// with switch `a2`.
pub open spec fn two_yields(
    before: Scheduler,
    mid: Scheduler,
    after: Scheduler,
    a1: Option<SwitchAction>,
    a2: Option<SwitchAction>,
    p: PreemptionState,
    t: TimerState,
) -> bool {
    &&& (if (p.pending || t.need_reschedule) && p.enabled { yield_effect(before, mid, a1) } else { mid == before && a1 is None })
    &&& yield_effect(mid, after, a2)
}

/// Task priorities.
#[derive(Debug, Clone, Copy, PartialEq, Eq, PartialOrd, Ord, Structural)]
pub enum Priority {
    High,
    Normal,
    Low,
}

impl Default for Priority {
    fn default() -> (r: Self)
        ensures
            r == Priority::Normal,
    {
        Priority::Normal
    }
}

/// Time slice length for a priority: half for high, double for low.
pub fn time_slice_for_priority(priority: Priority) -> (r: u64)
    ensures
        r == (match priority {
            Priority::High => 5int,
            Priority::Normal => 10int,
            Priority::Low => 20int,
        }),
{
    match priority {
        Priority::High => TIME_SLICE_TICKS / 2,
        Priority::Normal => TIME_SLICE_TICKS,
        Priority::Low => TIME_SLICE_TICKS * 2,
    }
}

} // verus!
