//! Parameters of ProtocolSelect for ISO/IEC 14443-A card emulation.
use super::ProtocolParams;
use crate::command::bit_of;
use vstd::prelude::*;

verus! {

/// Parameters of ProtocolSelect for ISO/IEC 14443-A card emulation.
#[derive(Debug)]
pub struct Parameters {
    wait_for_field: bool,
    clock_from_field: bool,
}

impl Default for Parameters {
    fn default() -> (r: Self)
        ensures
            !r.wait_for_field_spec() && !r.clock_from_field_spec(),
    {
        Parameters { wait_for_field: false, clock_from_field: false }
    }
}

/// The parameter byte: bit 3 waits for the reader field, bit 1 takes the
/// clock from the field.
pub open spec fn card_emulation_byte(wait_for_field: bool, clock_from_field: bool) -> u8 {
    (bit_of(wait_for_field) * 8 + bit_of(clock_from_field) * 2) as u8
}

impl Parameters {
    pub closed spec fn wait_for_field_spec(self) -> bool {
        self.wait_for_field
    }

    pub closed spec fn clock_from_field_spec(self) -> bool {
        self.clock_from_field
    }

    pub fn wait_for_field(self) -> (r: Self)
        ensures
            r.wait_for_field_spec(),
            r.clock_from_field_spec() == self.clock_from_field_spec(),
    {
        Self { wait_for_field: true, ..self }
    }

    pub fn clock_from_field(self) -> (r: Self)
        ensures
            r.wait_for_field_spec() == self.wait_for_field_spec(),
            r.clock_from_field_spec(),
    {
        Self { clock_from_field: true, ..self }
    }
}

impl Parameters {
    /// The eight ProtocolSelect parameter bytes (unused ones zero) and how
    /// many of them are sent.
    pub open spec fn select_data(self) -> (Seq<u8>, usize) {
        (
            seq![
                card_emulation_byte(self.wait_for_field_spec(), self.clock_from_field_spec()),
                0u8,
                0u8,
                0u8,
                0u8,
                0u8,
                0u8,
                0u8,
            ],
            1,
        )
    }

    /// The frame timeout the parameters configure, in whole microseconds,
    /// if any.
    pub open spec fn frame_timeout_us(self) -> Option<u64> {
        None
    }
}

impl ProtocolParams for Parameters {
    open spec fn data_spec(&self) -> (Seq<u8>, usize) {
        self.select_data()
    }

    open spec fn timeout_spec(&self) -> Option<u64> {
        self.frame_timeout_us()
    }

    fn data(self) -> (r: ([u8; 8], usize)) {
        let a: u8 = if self.wait_for_field { 8 } else { 0 };
        let b: u8 = if self.clock_from_field { 2 } else { 0 };
        let r = ([a + b, 0, 0, 0, 0, 0, 0, 0], 1);
        assert(r.0@ =~= self.data_spec().0);
        r
    }

    fn timeout_us(&self) -> (r: Option<u64>) {
        None
    }
}

} // verus!
