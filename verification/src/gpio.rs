//! GPIO signals between the host and the ST25R95.
use vstd::prelude::*;

verus! {

/// The two interrupt lines of the ST25R95, implemented for the platform.
///
/// - IRQ_IN, from the host to the chip: wake-up and startup pulses.
/// - IRQ_OUT, from the chip to the host: falls when an answer is ready.
pub trait St25r95Gpio {
    /// Generate a low pulse (at least 1 µs) on IRQ_IN.
    fn irq_in_pulse_low(&mut self);

    /// Wait up to `timeout` milliseconds for a falling edge on IRQ_OUT:
    /// `Ok(())` when it came, `Err(())` when the time ran out.
    ///
    /// The driver derives `timeout` from the timeout configured on the chip
    /// for the operation in flight, so an implementation must honour the
    /// full duration.
    #[allow(clippy::result_unit_err)]
    fn wait_irq_out_falling_edge(&mut self, timeout: u32) -> core::result::Result<(), ()>;
}

} // verus!
