//! Programmable interval timer: tick counting and time conversions.
use vstd::prelude::*;

verus! {

/// Base frequency of the PIT in Hz.
pub const PIT_FREQUENCY: u32 = 1_193_182;

/// PIT channel 0 data port.
pub const PIT_CHANNEL0_PORT: u16 = 0x40;

/// PIT command port.
pub const PIT_COMMAND_PORT: u16 = 0x43;

/// Command byte: channel 0, lobyte/hibyte, rate generator, binary.
pub const PIT_COMMAND: u8 = 0b00110100;

/// Timer state.
pub struct TimerState {
    pub tick_count: u64,
    pub frequency: u64,
    pub need_reschedule: bool,
    pub system_time_ms: u64,
    pub last_tick_time: u64,
}

/// Timer diagnostics.
#[derive(Debug, Clone, Copy, PartialEq, Eq, Structural)]
pub struct TimerStats {
    pub tick_count: u64,
    pub uptime_ms: u64,
    pub frequency_hz: u64,
    pub reschedule_pending: bool,
}

/// With a frequency set, the tick count converts to milliseconds without
/// overflow (the count itself wraps).
pub open spec fn tick_room(t: TimerState) -> bool {
    t.frequency > 0 ==> t.tick_count * 1000 <= u64::MAX
}

impl TimerState {
    /// A stopped timer: no ticks, no frequency.
    pub fn new() -> (r: Self)
        ensures
            r.tick_count == 0 && r.frequency == 0 && !r.need_reschedule && r.system_time_ms == 0
                && r.last_tick_time == 0,
    {
        TimerState { tick_count: 0, frequency: 0, need_reschedule: false, system_time_ms: 0, last_tick_time: 0 }
    }
}

/// Programs the timer for `frequency_hz` and returns the divisor to write to
/// channel 0 (low byte, then high byte) after `PIT_COMMAND`.
pub fn init_timer(t: &mut TimerState, frequency_hz: u32) -> (divisor: u32)
    requires
        0 < frequency_hz <= PIT_FREQUENCY,
        PIT_FREQUENCY / frequency_hz <= 65535,
    ensures
        divisor == PIT_FREQUENCY / frequency_hz,
        final(t).frequency == frequency_hz,
        final(t).tick_count == old(t).tick_count,
        final(t).need_reschedule == old(t).need_reschedule,
        final(t).system_time_ms == old(t).system_time_ms,
        final(t).last_tick_time == old(t).last_tick_time,
{
    let divisor = PIT_FREQUENCY / frequency_hz;
    t.frequency = frequency_hz as u64;
    divisor
}

/// Counts a tick, updates the uptime from the ticks before it and requests a
/// reschedule.
pub fn timer_tick(t: &mut TimerState)
    requires
        tick_room(*old(t)),
    ensures
        final(t).tick_count == old(t).tick_count.wrapping_add(1),
        final(t).frequency == old(t).frequency,
        final(t).system_time_ms == (if old(t).frequency > 0 {
            ((old(t).tick_count * 1000) / (old(t).frequency as int)) as u64
        } else {
            old(t).system_time_ms
        }),
        final(t).need_reschedule,
        final(t).last_tick_time == old(t).tick_count,
{
    let tick = t.tick_count;
    t.tick_count = tick.wrapping_add(1);
    let frequency = t.frequency;
    if frequency > 0 {
        t.system_time_ms = (tick * 1000) / frequency;
    }
    t.need_reschedule = true;
    t.last_tick_time = tick;
}

/// Ticks since the timer started.
pub fn get_tick_count(t: &TimerState) -> (r: u64)
    ensures
        r == t.tick_count,
{
    t.tick_count
}

/// Uptime in milliseconds.
pub fn get_uptime_ms(t: &TimerState) -> (r: u64)
    ensures
        r == t.system_time_ms,
{
    t.system_time_ms
}

/// Uptime in whole seconds.
pub fn get_uptime_seconds(t: &TimerState) -> (r: u64)
    ensures
        r == t.system_time_ms / 1000,
{
    get_uptime_ms(t) / 1000
}

/// Whether a reschedule was requested; the request is cleared.
pub fn should_reschedule(t: &mut TimerState) -> (r: bool)
    ensures
        r == old(t).need_reschedule,
        !final(t).need_reschedule,
        final(t).tick_count == old(t).tick_count,
        final(t).frequency == old(t).frequency,
        final(t).system_time_ms == old(t).system_time_ms,
        final(t).last_tick_time == old(t).last_tick_time,
{
    let r = t.need_reschedule;
    t.need_reschedule = false;
    r
}

/// Requests a reschedule.
pub fn request_reschedule(t: &mut TimerState)
    ensures
        final(t).need_reschedule,
        final(t).tick_count == old(t).tick_count,
        final(t).frequency == old(t).frequency,
        final(t).system_time_ms == old(t).system_time_ms,
        final(t).last_tick_time == old(t).last_tick_time,
{
    t.need_reschedule = true;
}

/// The programmed frequency in Hz.
pub fn get_timer_frequency(t: &TimerState) -> (r: u64)
    ensures
        r == t.frequency,
{
    t.frequency
}

/// Ticks since the timer started.
pub fn get_elapsed_ticks(t: &TimerState) -> (r: u64)
    ensures
        r == t.tick_count,
{
    get_tick_count(t)
}

/// Clears the counters and the reschedule request; the frequency stays.
pub fn reset_timer_stats(t: &mut TimerState)
    ensures
        final(t).tick_count == 0,
        final(t).system_time_ms == 0,
        final(t).last_tick_time == 0,
        !final(t).need_reschedule,
        final(t).frequency == old(t).frequency,
{
    t.tick_count = 0;
    t.system_time_ms = 0;
    t.last_tick_time = 0;
    t.need_reschedule = false;
}

/// A snapshot of the timer.
pub fn get_timer_stats(t: &TimerState) -> (r: TimerStats)
    ensures
        r == (TimerStats { tick_count: t.tick_count, uptime_ms: t.system_time_ms,
            frequency_hz: t.frequency, reschedule_pending: t.need_reschedule }),
{
    TimerStats {
        tick_count: get_tick_count(t),
        uptime_ms: get_uptime_ms(t),
        frequency_hz: get_timer_frequency(t),
        reschedule_pending: t.need_reschedule,
    }
}

/// Milliseconds in `ticks` timer ticks (0 while the timer is not programmed).
pub fn ticks_to_ms(t: &TimerState, ticks: u64) -> (r: u64)
    requires
        ticks * 1000 <= u64::MAX,
    ensures
        r == (if t.frequency > 0 { ((ticks * 1000) / (t.frequency as int)) as u64 } else { 0 }),
{
    let frequency = get_timer_frequency(t);
    if frequency > 0 {
        (ticks * 1000) / frequency
    } else {
        0
    }
}

/// Timer ticks in `ms` milliseconds (0 while the timer is not programmed).
pub fn ms_to_ticks(t: &TimerState, ms: u64) -> (r: u64)
    requires
        ms * t.frequency <= u64::MAX,
    ensures
        r == (if t.frequency > 0 { ((ms * t.frequency) / 1000) as u64 } else { 0 }),
{
    let frequency = get_timer_frequency(t);
    if frequency > 0 {
        (ms * frequency) / 1000
    } else {
        0
    }
}

/// Milliseconds since boot.
pub fn timestamp_ms(t: &TimerState) -> (r: u64)
    ensures
        r == t.system_time_ms,
{
    get_uptime_ms(t)
}

/// Converting ticks to milliseconds and back never gives more ticks than
/// there were: each conversion rounds down.
pub proof fn law_tick_conversion_rounds_down(ticks: nat, frequency: nat)
    requires
        frequency > 0,
    ensures
        ((ticks * 1000 / frequency) * frequency) / 1000 <= ticks,
{
    let x = ticks * 1000;
    let q = x / frequency;
    assert(q * frequency <= x) by (nonlinear_arith)
        requires
            q == x / frequency,
            frequency > 0,
            x >= 0,
    {
        vstd::arithmetic::div_mod::lemma_fundamental_div_mod(x as int, frequency as int);
    }
    assert((q * frequency) / 1000 <= x / 1000) by {
        vstd::arithmetic::div_mod::lemma_div_is_ordered((q * frequency) as int, x as int, 1000);
    }
    assert(x / 1000 == ticks);
}

} // verus!
