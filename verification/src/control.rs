//! Control bytes of the SPI protocol and the flags of its Poll operation.
use vstd::prelude::*;

verus! {

/// Control byte that starts every SPI exchange (datasheet §4.1).
#[derive(Debug, Copy, Clone, PartialEq, Eq, Structural)]
pub(crate) enum Control {
    Command,
    Reset,
    Read,
    Poll,
}

impl Control {
    /// The control byte.
    #[allow(dead_code)]
    pub(crate) fn code(self) -> (r: u8)
        ensures
            r == (match self {
                Control::Command => 0x00u8,
                Control::Reset => 0x01u8,
                Control::Read => 0x02u8,
                Control::Poll => 0x03u8,
            }),
    {
        match self {
            Control::Command => 0x00,
            Control::Reset => 0x01,
            Control::Read => 0x02,
            Control::Poll => 0x03,
        }
    }
}

/// Flags of the SPI Poll operation: bit 2 (data can be read) and bit 3
/// (data can be sent).
#[derive(Debug, Copy, Clone, PartialEq, Eq, Structural)]
pub struct PollFlags {
    bits: u8,
}

impl PollFlags {
    pub closed spec fn bits_spec(self) -> u8 {
        self.bits
    }

    /// Data can be read from the ST25R95.
    pub fn can_read() -> (r: Self)
        ensures
            r.bits_spec() == 0x04,
    {
        PollFlags { bits: 0x04 }
    }

    /// Data can be sent to the ST25R95.
    pub fn can_send() -> (r: Self)
        ensures
            r.bits_spec() == 0x08,
    {
        PollFlags { bits: 0x08 }
    }

    /// The flag bits.
    pub fn bits(&self) -> (r: u8)
        ensures
            r == self.bits_spec(),
    {
        self.bits
    }

    /// Whether every flag of `other` is set in `self`.
    pub fn contains(&self, other: PollFlags) -> (r: bool)
        ensures
            r == (self.bits_spec() & other.bits_spec() == other.bits_spec()),
    {
        self.bits & other.bits == other.bits
    }
}

} // verus!
