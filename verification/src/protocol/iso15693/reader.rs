//! ISO/IEC 15693 reader parameters.
use super::super::ProtocolParams;
use crate::command::bit_of;
use vstd::prelude::*;

verus! {

/// Data rate of the tag's answer.
#[derive(Debug, Copy, Clone, PartialEq, Eq, Structural)]
pub enum Speed {
    Kbps52,
    Kbps26H,
    Kbps6L,
}

impl Default for Speed {
    fn default() -> (r: Self)
        ensures
            r == Speed::Kbps26H,
    {
        Speed::Kbps26H
    }
}

/// The two-bit field of each speed.
pub open spec fn speed_bits(s: Speed) -> u8 {
    match s {
        Speed::Kbps52 => 0b01,
        Speed::Kbps26H => 0b00,
        Speed::Kbps6L => 0b10,
    }
}

impl Speed {
    /// The two-bit field of this speed.
    pub fn bits(&self) -> (r: u8)
        ensures
            r == speed_bits(*self),
    {
        match self {
            Speed::Kbps52 => 0b01,
            Speed::Kbps26H => 0b00,
            Speed::Kbps6L => 0b10,
        }
    }
}

/// Modulation depth of the reader.
#[derive(Debug, Copy, Clone, PartialEq, Eq, Structural)]
pub enum Modulation {
    Percent100,
    Percent10,
}

impl Default for Modulation {
    fn default() -> (r: Self)
        ensures
            r == Modulation::Percent100,
    {
        Modulation::Percent100
    }
}

/// Sub-carriers of the tag's answer.
#[derive(Debug, Copy, Clone, PartialEq, Eq, Structural)]
pub enum Subcarrier {
    Single,
    Double,
}

impl Default for Subcarrier {
    fn default() -> (r: Self)
        ensures
            r == Subcarrier::Single,
    {
        Subcarrier::Single
    }
}

/// Parameters of ProtocolSelect for an ISO/IEC 15693 reader.
#[derive(Debug)]
pub struct Parameters {
    speed: Speed,
    wait_for_sof: bool,
    modulation: Modulation,
    subcarrier: Subcarrier,
    with_crc: bool,
}

impl Default for Parameters {
    fn default() -> (r: Self)
        ensures
            r.speed_spec() == Speed::Kbps26H,
            !r.wait_for_sof_spec(),
            r.modulation_spec() == Modulation::Percent100,
            r.subcarrier_spec() == Subcarrier::Single,
            !r.with_crc_spec(),
    {
        Self {
            speed: Speed::Kbps26H,
            wait_for_sof: false,
            modulation: Modulation::Percent100,
            subcarrier: Subcarrier::Single,
            with_crc: false,
        }
    }
}

/// The parameter byte: speed in bits 5-4, wait for SOF in bit 3, 10%
/// modulation in bit 2, double sub-carrier in bit 1, CRC in bit 0.
pub open spec fn iso15693_byte(p: Parameters) -> u8 {
    (speed_bits(p.speed_spec()) * 16 + bit_of(p.wait_for_sof_spec()) * 8 + bit_of(
        p.modulation_spec() == Modulation::Percent10,
    ) * 4 + bit_of(p.subcarrier_spec() == Subcarrier::Double) * 2 + bit_of(p.with_crc_spec())) as u8
}

impl Parameters {
    pub closed spec fn speed_spec(self) -> Speed {
        self.speed
    }

    pub closed spec fn wait_for_sof_spec(self) -> bool {
        self.wait_for_sof
    }

    pub closed spec fn modulation_spec(self) -> Modulation {
        self.modulation
    }

    pub closed spec fn subcarrier_spec(self) -> Subcarrier {
        self.subcarrier
    }

    pub closed spec fn with_crc_spec(self) -> bool {
        self.with_crc
    }

    /// Every field of `self` but the one `r` is allowed to change.
    pub open spec fn same_but(self, r: Self, s: bool, w: bool, m: bool, c: bool, k: bool) -> bool {
        &&& (s || r.speed_spec() == self.speed_spec())
        &&& (w || r.wait_for_sof_spec() == self.wait_for_sof_spec())
        &&& (m || r.modulation_spec() == self.modulation_spec())
        &&& (c || r.subcarrier_spec() == self.subcarrier_spec())
        &&& (k || r.with_crc_spec() == self.with_crc_spec())
    }

    pub fn speed(self, speed: Speed) -> (r: Self)
        ensures
            r.speed_spec() == speed,
            self.same_but(r, true, false, false, false, false),
    {
        Self { speed, ..self }
    }

    pub fn wait_for_sof(self) -> (r: Self)
        ensures
            r.wait_for_sof_spec(),
            self.same_but(r, false, true, false, false, false),
    {
        Self { wait_for_sof: true, ..self }
    }

    pub fn modulation(self, modulation: Modulation) -> (r: Self)
        ensures
            r.modulation_spec() == modulation,
            self.same_but(r, false, false, true, false, false),
    {
        Self { modulation, ..self }
    }

    pub(crate) fn get_modulation(&self) -> (r: Modulation)
        ensures
            r == self.modulation_spec(),
    {
        self.modulation
    }

    pub fn subcarrier(self, subcarrier: Subcarrier) -> (r: Self)
        ensures
            r.subcarrier_spec() == subcarrier,
            self.same_but(r, false, false, false, true, false),
    {
        Self { subcarrier, ..self }
    }

    pub fn with_crc(self) -> (r: Self)
        ensures
            r.with_crc_spec(),
            self.same_but(r, false, false, false, false, true),
    {
        Self { with_crc: true, ..self }
    }
}

impl Parameters {
    /// The eight ProtocolSelect parameter bytes (unused ones zero) and how
    /// many of them are sent.
    pub open spec fn select_data(self) -> (Seq<u8>, usize) {
        (seq![iso15693_byte(self), 0u8, 0u8, 0u8, 0u8, 0u8, 0u8, 0u8], 1)
    }

    /// The frame timeout the parameters configure, in whole microseconds,
    /// if any.
    pub open spec fn frame_timeout_us(self) -> Option<u64> {
        None
    }
}

impl ProtocolParams for Parameters {
    open spec fn data_spec(&self) -> (Seq<u8>, usize) {
        self.select_data()
    }

    open spec fn timeout_spec(&self) -> Option<u64> {
        self.frame_timeout_us()
    }

    fn data(self) -> (r: ([u8; 8], usize)) {
        let w: u8 = if self.wait_for_sof { 8 } else { 0 };
        let m: u8 = match self.modulation {
            Modulation::Percent10 => 4,
            Modulation::Percent100 => 0,
        };
        let c: u8 = match self.subcarrier {
            Subcarrier::Double => 2,
            Subcarrier::Single => 0,
        };
        let k: u8 = if self.with_crc { 1 } else { 0 };
        let param_byte = self.speed.bits() * 16 + w + m + c + k;
        let r = ([param_byte, 0, 0, 0, 0, 0, 0, 0], 1);
        assert(r.0@ =~= self.data_spec().0);
        r
    }

    fn timeout_us(&self) -> (r: Option<u64>) {
        None
    }
}

/// The ProtocolSelect parameter byte of an ISO/IEC 15693 reader
/// (datasheet Table 11): each option in its own bit (CRC bit 0, double
/// sub-carrier bit 1, 10% modulation bit 2, wait for SOF bit 3) and the
/// data rate in bits 5-4 (26 kbps as 0, 52 kbps as 1, 6 kbps as 2); bits
/// 7-6 are clear and one byte is sent.
pub proof fn lemma_iso15693_parameter_byte(p: Parameters)
    ensures
        p.data_spec().0.len() == 8,
        p.data_spec().1 == 1,
        (p.data_spec().0[0] % 2 == 1) == p.with_crc_spec(),
        (p.data_spec().0[0] / 2 % 2 == 1) == (p.subcarrier_spec() == Subcarrier::Double),
        (p.data_spec().0[0] / 4 % 2 == 1) == (p.modulation_spec() == Modulation::Percent10),
        (p.data_spec().0[0] / 8 % 2 == 1) == p.wait_for_sof_spec(),
        p.speed_spec() == Speed::Kbps26H ==> p.data_spec().0[0] / 16 == 0,
        p.speed_spec() == Speed::Kbps52 ==> p.data_spec().0[0] / 16 == 1,
        p.speed_spec() == Speed::Kbps6L ==> p.data_spec().0[0] / 16 == 2,
{
}

} // verus!
