use super::Register;
use vstd::prelude::*;

verus! {

/// Timer window of the ISO/IEC 14443 Type A demodulator (write-only).
#[derive(Debug, Copy, Clone, PartialEq, Eq, Structural)]
pub struct TimerWindow(pub u8);

impl TimerWindow {
    /// The timer window value.
    pub fn value(&self) -> (r: u8)
        ensures
            r == self.0,
    {
        self.0
    }
}

impl Register for TimerWindow {
    open spec fn readable(&self) -> bool {
        false
    }

    open spec fn writable(&self) -> bool {
        true
    }

    open spec fn read_addr_spec(&self) -> u8 {
        0
    }

    open spec fn write_addr_spec(&self) -> u8 {
        0x3A
    }

    open spec fn index_confirmation_spec(&self) -> u8 {
        0x04
    }

    open spec fn has_index_spec(&self) -> bool {
        false
    }

    open spec fn value_spec(&self) -> u8 {
        self.0
    }

    fn read_addr(&self) -> (r: u8) {
        0
    }

    fn write_addr(&self) -> (r: u8) {
        0x3A
    }

    fn index_confirmation(&self) -> (r: u8) {
        0x04
    }

    fn has_index(&self) -> (r: bool) {
        false
    }

    fn value(&self) -> (r: u8) {
        self.0
    }
}

} // verus!
