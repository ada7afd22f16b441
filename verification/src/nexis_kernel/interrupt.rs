//! Interrupt handling: the PIC, the programmable interval timer and
//! interrupt bookkeeping.
pub mod handlers;
pub mod idt;
pub mod pic;
pub mod timer;

use vstd::prelude::*;

verus! {

/// Interrupt subsystem errors.
#[derive(Debug, Clone, Copy, PartialEq, Eq, Structural)]
pub enum InterruptError {
    InvalidVector,
    HandlerAlreadyRegistered,
    PicInitializationFailed,
    TimerInitializationFailed,
}

/// Timer interrupt vector after PIC remapping.
pub const TIMER_VECTOR: u8 = 32;

/// Keyboard interrupt vector after PIC remapping.
pub const KEYBOARD_VECTOR: u8 = 33;

/// Real-time clock interrupt vector after PIC remapping.
pub const RTC_VECTOR: u8 = 40;

/// System call vector.
pub const SYSCALL_VECTOR: u8 = 0x80;

} // verus!
