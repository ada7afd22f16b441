//! Device drivers: VGA console, keyboard and real-time clock.
pub mod kb;
pub mod rtc;
pub mod vga;

use vstd::prelude::*;
use crate::nexis_kernel::drivers::kb::Kb;
use crate::nexis_kernel::drivers::rtc::{RtcDriver, decode_registers, unix_seconds};
use crate::nexis_kernel::drivers::vga::Console;

verus! {

/// Brings the drivers up in order: the screen first, for early output, then
/// the keyboard, then the clock from the registers last read.
pub fn init_all_drivers(con: &mut Console, kb: &mut Kb, rtc: &mut RtcDriver) -> (r: Result<(), &'static str>)
    requires
        old(con).wf(),
        old(kb).wf(),
        old(rtc).driver_inv(),
    ensures
        r is Ok,
        final(con).wf(),
        final(kb).wf(),
        final(con).vga.is_init(),
        final(kb).initialized,
        final(kb).queue@ == old(kb).queue@,
        final(rtc).initialized,
        final(rtc).boot_time == unix_seconds(decode_registers(final(rtc).clock)),
{
    vga::init(con)?;
    kb::init(kb)?;
    rtc::init(rtc)?;
    Ok(())
}

/// A device driver.
pub trait Driver {
    /// Error type of the driver's operations.
    type Error;

    /// The driver's own consistency, kept by every operation.
    spec fn driver_inv(&self) -> bool;

    /// Human-readable driver name.
    fn name(&self) -> &'static str;

    /// Brings the driver up.
    fn init(&mut self) -> (r: Result<(), Self::Error>)
        requires
            old(self).driver_inv(),
        ensures
            final(self).driver_inv(),
    ;

    /// Resets the driver's state.
    fn cleanup(&mut self) -> (r: Result<(), Self::Error>)
        requires
            old(self).driver_inv(),
        ensures
            final(self).driver_inv(),
    ;

    /// Whether the driver has been initialised.
    fn is_initialized(&self) -> bool;
}

/// A driver that produces bytes.
pub trait InputDriver: Driver {
    /// Fills the front of `buffer` with available input; the count read.
    fn read(&mut self, buffer: &mut [u8]) -> (r: Result<usize, Self::Error>)
        requires
            old(self).driver_inv(),
        ensures
            final(self).driver_inv(),
            final(buffer)@.len() == old(buffer)@.len(),
            r matches Ok(n) ==> n <= old(buffer)@.len(),
    ;

    /// Whether input is waiting.
    fn has_input(&self) -> bool
        requires
            self.driver_inv(),
    ;
}

/// A driver that consumes bytes.
pub trait OutputDriver: Driver {
    /// Writes `buffer`; the count written.
    fn write(&mut self, buffer: &[u8]) -> (r: Result<usize, Self::Error>)
        requires
            old(self).driver_inv(),
        ensures
            final(self).driver_inv(),
            r matches Ok(n) ==> n <= buffer@.len(),
    ;

    /// Pushes out anything buffered.
    fn flush(&mut self) -> (r: Result<(), Self::Error>)
        requires
            old(self).driver_inv(),
        ensures
            final(self).driver_inv(),
    ;
}

/// A driver that keeps time.
pub trait TimerDriver: Driver {
    /// Seconds since the Unix epoch.
    fn get_timestamp(&self) -> u64
        requires
            self.driver_inv(),
    ;

    /// Arranges an alarm at a timestamp.
    fn set_alarm(&mut self, timestamp: u64) -> (r: Result<(), Self::Error>)
        requires
            old(self).driver_inv(),
        ensures
            final(self).driver_inv(),
    ;
}

} // verus!
