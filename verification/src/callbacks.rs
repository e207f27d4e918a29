//! Platform hooks of the chip's bus, for applications that drive it through
//! callbacks rather than through [`St25r95Spi`](crate::St25r95Spi) and
//! [`St25r95Gpio`](crate::St25r95Gpio).
use core::fmt::Debug;
use vstd::prelude::*;

verus! {

/// Bus access and timing provided by the platform.
pub trait Callbacks {
    type Error: Debug;

    /// Write `write` and read as many bytes into `read`.
    fn transfer(&self, write: &[u8], read: &mut [u8]) -> Result<(), Self::Error>;

    /// Read bytes into `read`.
    fn read(&self, read: &mut [u8]) -> Result<(), Self::Error>;

    /// Drive IRQ_IN high or low.
    fn set_irq_in(&self, high: bool);

    /// Assert the chip select.
    fn select(&self);

    /// Release the chip select.
    fn release(&self);

    /// Wait `ms` milliseconds.
    fn delay_ms(&self, ms: u8);
}

} // verus!
