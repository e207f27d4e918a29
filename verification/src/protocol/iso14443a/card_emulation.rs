//! ISO/IEC 14443-A card emulation parameters and anti-collision states.
use super::super::ProtocolParams;
use crate::command::bit_of;
use vstd::prelude::*;

verus! {

/// Whether the emulated card is in Listen mode.
pub type Listen = bool;

/// Parameters of ProtocolSelect for ISO/IEC 14443-A card emulation.
#[derive(Debug)]
pub struct Parameters {
    wait_for_field: bool,
    clock_from_field: bool,
}

impl Default for Parameters {
    fn default() -> (r: Self)
        ensures
            !r.wait_for_field_spec() && !r.clock_from_field_spec(),
    {
        Parameters { wait_for_field: false, clock_from_field: false }
    }
}

/// The parameter byte: bit 3 waits for the reader field, bit 1 takes the
/// clock from the field.
pub open spec fn card_emulation_byte(wait_for_field: bool, clock_from_field: bool) -> u8 {
    (bit_of(wait_for_field) * 8 + bit_of(clock_from_field) * 2) as u8
}

impl Parameters {
    pub closed spec fn wait_for_field_spec(self) -> bool {
        self.wait_for_field
    }

    pub closed spec fn clock_from_field_spec(self) -> bool {
        self.clock_from_field
    }

    pub fn wait_for_field(self) -> (r: Self)
        ensures
            r.wait_for_field_spec(),
            r.clock_from_field_spec() == self.clock_from_field_spec(),
    {
        Self { wait_for_field: true, ..self }
    }

    pub fn clock_from_field(self) -> (r: Self)
        ensures
            r.wait_for_field_spec() == self.wait_for_field_spec(),
            r.clock_from_field_spec(),
    {
        Self { clock_from_field: true, ..self }
    }
}

impl Parameters {
    /// The eight ProtocolSelect parameter bytes (unused ones zero) and how
    /// many of them are sent.
    pub open spec fn select_data(self) -> (Seq<u8>, usize) {
        (
            seq![
                card_emulation_byte(self.wait_for_field_spec(), self.clock_from_field_spec()),
                0u8,
                0u8,
                0u8,
                0u8,
                0u8,
                0u8,
                0u8,
            ],
            1,
        )
    }

    /// The frame timeout the parameters configure, in whole microseconds,
    /// if any.
    pub open spec fn frame_timeout_us(self) -> Option<u64> {
        None
    }
}

impl ProtocolParams for Parameters {
    open spec fn data_spec(&self) -> (Seq<u8>, usize) {
        self.select_data()
    }

    open spec fn timeout_spec(&self) -> Option<u64> {
        self.frame_timeout_us()
    }

    fn data(self) -> (r: ([u8; 8], usize)) {
        let a: u8 = if self.wait_for_field { 8 } else { 0 };
        let b: u8 = if self.clock_from_field { 2 } else { 0 };
        let r = ([a + b, 0, 0, 0, 0, 0, 0, 0], 1);
        assert(r.0@ =~= self.data_spec().0);
        r
    }

    fn timeout_us(&self) -> (r: Option<u64>) {
        None
    }
}

/// States of the anti-collision filter of the emulated card.
#[derive(Debug, Clone, Copy, PartialEq, Eq, Structural)]
pub enum AntiColState {
    Idle,
    ReadyA,
    Active,
    Halt,
    ReadyAs,
    ActiveAs,
}

/// The byte of each anti-collision state.
pub open spec fn anti_col_code(s: AntiColState) -> u8 {
    match s {
        AntiColState::Idle => 0x00,
        AntiColState::ReadyA => 0x01,
        AntiColState::Active => 0x04,
        AntiColState::Halt => 0x80,
        AntiColState::ReadyAs => 0x81,
        AntiColState::ActiveAs => 0x84,
    }
}

/// The anti-collision state named by a byte, if any.
pub open spec fn anti_col_of(value: u8) -> core::result::Result<AntiColState, ()> {
    if value == 0x00 {
        Ok(AntiColState::Idle)
    } else if value == 0x01 {
        Ok(AntiColState::ReadyA)
    } else if value == 0x04 {
        Ok(AntiColState::Active)
    } else if value == 0x80 {
        Ok(AntiColState::Halt)
    } else if value == 0x81 {
        Ok(AntiColState::ReadyAs)
    } else if value == 0x84 {
        Ok(AntiColState::ActiveAs)
    } else {
        Err(())
    }
}

impl AntiColState {
    /// The byte of this state.
    pub fn code(self) -> (r: u8)
        ensures
            r == anti_col_code(self),
    {
        match self {
            AntiColState::Idle => 0x00,
            AntiColState::ReadyA => 0x01,
            AntiColState::Active => 0x04,
            AntiColState::Halt => 0x80,
            AntiColState::ReadyAs => 0x81,
            AntiColState::ActiveAs => 0x84,
        }
    }
}

impl TryFrom<u8> for AntiColState {
    type Error = ();

    fn try_from(value: u8) -> (r: core::result::Result<Self, ()>)
        ensures
            r == anti_col_of(value),
    {
        match value {
            0x00 => Ok(AntiColState::Idle),
            0x01 => Ok(AntiColState::ReadyA),
            0x04 => Ok(AntiColState::Active),
            0x80 => Ok(AntiColState::Halt),
            0x81 => Ok(AntiColState::ReadyAs),
            0x84 => Ok(AntiColState::ActiveAs),
            _ => Err(()),
        }
    }
}

impl vstd::std_specs::convert::TryFromSpecImpl<u8> for AntiColState {
    open spec fn obeys_try_from_spec() -> bool {
        true
    }

    open spec fn try_from_spec(v: u8) -> core::result::Result<Self, ()> {
        anti_col_of(v)
    }
}

/// Every state's byte names that state.
pub proof fn lemma_anti_col_roundtrip(s: AntiColState, value: u8)
    ensures
        anti_col_of(anti_col_code(s)) == Ok::<AntiColState, ()>(s),
        anti_col_of(value) matches Ok(t) ==> anti_col_code(t) == value,
{
}

/// The ProtocolSelect parameter byte of ISO/IEC 14443-A card emulation
/// (datasheet Table 15): waiting for the reader field in bit 3, taking the
/// clock from the field in bit 1, every other bit clear; one byte is sent.
pub proof fn lemma_card_emulation_parameter_byte(p: Parameters)
    ensures
        p.data_spec().0.len() == 8,
        p.data_spec().1 == 1,
        (p.data_spec().0[0] / 8 % 2 == 1) == p.wait_for_field_spec(),
        (p.data_spec().0[0] / 2 % 2 == 1) == p.clock_from_field_spec(),
        p.data_spec().0[0] % 2 == 0,
        p.data_spec().0[0] / 4 % 2 == 0,
        p.data_spec().0[0] / 16 == 0,
{
}

/// The anti-collision states (datasheet Table 30): Idle, Ready and Active
/// are 0x00, 0x01 and 0x04, and the states reached after a halt have the
/// same code with bit 7 set.
pub proof fn lemma_anti_col_codes()
    ensures
        anti_col_code(AntiColState::Idle) == 0x00,
        anti_col_code(AntiColState::ReadyA) == 0x01,
        anti_col_code(AntiColState::Active) == 0x04,
        anti_col_code(AntiColState::Halt) == anti_col_code(AntiColState::Idle) + 0x80,
        anti_col_code(AntiColState::ReadyAs) == anti_col_code(AntiColState::ReadyA) + 0x80,
        anti_col_code(AntiColState::ActiveAs) == anti_col_code(AntiColState::Active) + 0x80,
{
}

} // verus!
