//! ARC_B register: modulation index and receiver gain of the reader.
use super::Register;
use crate::error::{Error, Result};
use vstd::prelude::*;

verus! {

/// Modulation index of the transmitter (datasheet Table 35).
#[derive(Debug, Copy, Clone, PartialEq, Eq, Structural)]
pub enum ModulationIndex {
    Percent10,
    Percent17,
    Percent25,
    Percent30,
    Percent33,
    Percent36,
    Percent95,
}

/// The four-bit field of each modulation index.
pub open spec fn modulation_index_bits(m: ModulationIndex) -> u8 {
    match m {
        ModulationIndex::Percent10 => 0x1,
        ModulationIndex::Percent17 => 0x2,
        ModulationIndex::Percent25 => 0x3,
        ModulationIndex::Percent30 => 0x4,
        ModulationIndex::Percent33 => 0x5,
        ModulationIndex::Percent36 => 0x6,
        ModulationIndex::Percent95 => 0xD,
    }
}

/// The modulation index selected by a four-bit field, if any.
pub open spec fn modulation_index_of(v: u8) -> core::result::Result<ModulationIndex, ()> {
    if v == 0x1 {
        Ok(ModulationIndex::Percent10)
    } else if v == 0x2 {
        Ok(ModulationIndex::Percent17)
    } else if v == 0x3 {
        Ok(ModulationIndex::Percent25)
    } else if v == 0x4 {
        Ok(ModulationIndex::Percent30)
    } else if v == 0x5 {
        Ok(ModulationIndex::Percent33)
    } else if v == 0x6 {
        Ok(ModulationIndex::Percent36)
    } else if v == 0xD {
        Ok(ModulationIndex::Percent95)
    } else {
        Err(())
    }
}

impl ModulationIndex {
    /// The four-bit field of this modulation index.
    pub fn bits(self) -> (r: u8)
        ensures
            r == modulation_index_bits(self),
    {
        match self {
            ModulationIndex::Percent10 => 0x1,
            ModulationIndex::Percent17 => 0x2,
            ModulationIndex::Percent25 => 0x3,
            ModulationIndex::Percent30 => 0x4,
            ModulationIndex::Percent33 => 0x5,
            ModulationIndex::Percent36 => 0x6,
            ModulationIndex::Percent95 => 0xD,
        }
    }
}

impl TryFrom<u8> for ModulationIndex {
    type Error = ();

    fn try_from(value: u8) -> (r: core::result::Result<Self, ()>)
        ensures
            r == modulation_index_of(value),
    {
        match value {
            0x1 => Ok(ModulationIndex::Percent10),
            0x2 => Ok(ModulationIndex::Percent17),
            0x3 => Ok(ModulationIndex::Percent25),
            0x4 => Ok(ModulationIndex::Percent30),
            0x5 => Ok(ModulationIndex::Percent33),
            0x6 => Ok(ModulationIndex::Percent36),
            0xD => Ok(ModulationIndex::Percent95),
            _ => Err(()),
        }
    }
}

impl vstd::std_specs::convert::TryFromSpecImpl<u8> for ModulationIndex {
    open spec fn obeys_try_from_spec() -> bool {
        true
    }

    open spec fn try_from_spec(v: u8) -> core::result::Result<Self, ()> {
        modulation_index_of(v)
    }
}

/// Gain of the receiver (datasheet Table 35).
#[derive(Debug, Copy, Clone, PartialEq, Eq, Structural)]
pub enum ReceiverGain {
    Db34,
    Db32,
    Db27,
    Db20,
    Db8,
}

/// The four-bit field of each receiver gain.
pub open spec fn receiver_gain_bits(g: ReceiverGain) -> u8 {
    match g {
        ReceiverGain::Db34 => 0x0,
        ReceiverGain::Db32 => 0x1,
        ReceiverGain::Db27 => 0x3,
        ReceiverGain::Db20 => 0x7,
        ReceiverGain::Db8 => 0xF,
    }
}

/// The receiver gain selected by a four-bit field, if any.
pub open spec fn receiver_gain_of(v: u8) -> core::result::Result<ReceiverGain, ()> {
    if v == 0x0 {
        Ok(ReceiverGain::Db34)
    } else if v == 0x1 {
        Ok(ReceiverGain::Db32)
    } else if v == 0x3 {
        Ok(ReceiverGain::Db27)
    } else if v == 0x7 {
        Ok(ReceiverGain::Db20)
    } else if v == 0xF {
        Ok(ReceiverGain::Db8)
    } else {
        Err(())
    }
}

impl ReceiverGain {
    /// The four-bit field of this gain.
    pub fn bits(self) -> (r: u8)
        ensures
            r == receiver_gain_bits(self),
    {
        match self {
            ReceiverGain::Db34 => 0x0,
            ReceiverGain::Db32 => 0x1,
            ReceiverGain::Db27 => 0x3,
            ReceiverGain::Db20 => 0x7,
            ReceiverGain::Db8 => 0xF,
        }
    }
}

impl TryFrom<u8> for ReceiverGain {
    type Error = ();

    fn try_from(value: u8) -> (r: core::result::Result<Self, ()>)
        ensures
            r == receiver_gain_of(value),
    {
        match value {
            0x0 => Ok(ReceiverGain::Db34),
            0x1 => Ok(ReceiverGain::Db32),
            0x3 => Ok(ReceiverGain::Db27),
            0x7 => Ok(ReceiverGain::Db20),
            0xF => Ok(ReceiverGain::Db8),
            _ => Err(()),
        }
    }
}

impl vstd::std_specs::convert::TryFromSpecImpl<u8> for ReceiverGain {
    open spec fn obeys_try_from_spec() -> bool {
        true
    }

    open spec fn try_from_spec(v: u8) -> core::result::Result<Self, ()> {
        receiver_gain_of(v)
    }
}

/// The depth of each modulation index, in percent.
pub open spec fn modulation_percent(m: ModulationIndex) -> nat {
    match m {
        ModulationIndex::Percent10 => 10,
        ModulationIndex::Percent17 => 17,
        ModulationIndex::Percent25 => 25,
        ModulationIndex::Percent30 => 30,
        ModulationIndex::Percent33 => 33,
        ModulationIndex::Percent36 => 36,
        ModulationIndex::Percent95 => 95,
    }
}

/// The gain of each receiver gain setting, in dB.
pub open spec fn gain_db(g: ReceiverGain) -> nat {
    match g {
        ReceiverGain::Db34 => 34,
        ReceiverGain::Db32 => 32,
        ReceiverGain::Db27 => 27,
        ReceiverGain::Db20 => 20,
        ReceiverGain::Db8 => 8,
    }
}

/// The modulation index codes of datasheet Table 35: a deeper modulation
/// has a larger code, 10% to 36% take the codes 1 to 6 in order and 95%
/// takes 0xD; a code decodes to the index that has it, and no other code
/// decodes.
pub proof fn lemma_modulation_index_codes(a: ModulationIndex, b: ModulationIndex, v: u8)
    ensures
        (modulation_percent(a) < modulation_percent(b)) == (modulation_index_bits(a)
            < modulation_index_bits(b)),
        modulation_percent(a) <= 36 ==> modulation_index_bits(a) as int == (if modulation_percent(a) == 10 {
            1int
        } else if modulation_percent(a) == 17 {
            2
        } else if modulation_percent(a) == 25 {
            3
        } else if modulation_percent(a) == 30 {
            4
        } else if modulation_percent(a) == 33 {
            5
        } else {
            6
        }),
        modulation_percent(a) == 95 ==> modulation_index_bits(a) == 0xD,
        modulation_index_of(v) == Ok::<ModulationIndex, ()>(a) <==> modulation_index_bits(a) == v,
        modulation_index_of(v) is Err <==> !(1 <= v <= 6 || v == 0xD),
{
}

/// The receiver gain codes of datasheet Table 35: a smaller gain has a
/// larger code (34, 32, 27, 20 and 8 dB as 0x0, 0x1, 0x3, 0x7 and 0xF); a
/// code decodes to the gain that has it, and no other code decodes.
pub proof fn lemma_receiver_gain_codes(a: ReceiverGain, b: ReceiverGain, v: u8)
    ensures
        (gain_db(a) > gain_db(b)) == (receiver_gain_bits(a) < receiver_gain_bits(b)),
        gain_db(a) == 34 ==> receiver_gain_bits(a) == 0x0,
        gain_db(a) == 32 ==> receiver_gain_bits(a) == 0x1,
        gain_db(a) == 27 ==> receiver_gain_bits(a) == 0x3,
        gain_db(a) == 20 ==> receiver_gain_bits(a) == 0x7,
        gain_db(a) == 8 ==> receiver_gain_bits(a) == 0xF,
        receiver_gain_of(v) == Ok::<ReceiverGain, ()>(a) <==> receiver_gain_bits(a) == v,
        receiver_gain_of(v) is Err <==> !(v == 0x0 || v == 0x1 || v == 0x3 || v == 0x7 || v == 0xF),
{
}

/// The ARC_B register byte holds the modulation index code in bits 7-4 and
/// the receiver gain code in bits 3-0.
pub proof fn lemma_arc_b_byte_nibbles(a: ArcB)
    ensures
        arc_b_byte(a) / 16 == modulation_index_bits(a.modulation_index),
        arc_b_byte(a) % 16 == receiver_gain_bits(a.receiver_gain),
{
}

/// ARC_B register value: modulation index in the high nibble, receiver gain
/// in the low nibble.
#[derive(Debug, Copy, Clone, PartialEq, Eq, Structural)]
pub struct ArcB {
    pub modulation_index: ModulationIndex,
    pub receiver_gain: ReceiverGain,
}

/// The register byte of an ARC_B value.
pub open spec fn arc_b_byte(a: ArcB) -> u8 {
    (modulation_index_bits(a.modulation_index) * 16 + receiver_gain_bits(a.receiver_gain)) as u8
}

/// The ARC_B value read back from a register byte.
pub open spec fn arc_b_of(data: u8) -> Result<ArcB> {
    let mi = data / 16;
    let rg = data % 16;
    match modulation_index_of(mi) {
        Err(_) => Err(Error::InvalidModulationIndex(mi)),
        Ok(modulation_index) => match receiver_gain_of(rg) {
            Err(_) => Err(Error::InvalidReceiverGain(rg)),
            Ok(receiver_gain) => Ok(ArcB { modulation_index, receiver_gain }),
        },
    }
}

impl Register for ArcB {
    open spec fn readable(&self) -> bool {
        true
    }

    open spec fn writable(&self) -> bool {
        true
    }

    open spec fn read_addr_spec(&self) -> u8 {
        0x69
    }

    open spec fn write_addr_spec(&self) -> u8 {
        0x68
    }

    open spec fn index_confirmation_spec(&self) -> u8 {
        0x01
    }

    open spec fn has_index_spec(&self) -> bool {
        true
    }

    open spec fn value_spec(&self) -> u8 {
        arc_b_byte(*self)
    }

    fn read_addr(&self) -> (r: u8) {
        0x69
    }

    fn write_addr(&self) -> (r: u8) {
        0x68
    }

    fn index_confirmation(&self) -> (r: u8) {
        0x01
    }

    fn has_index(&self) -> (r: bool) {
        true
    }

    fn value(&self) -> (r: u8) {
        self.modulation_index.bits() * 16 + self.receiver_gain.bits()
    }
}

impl ArcB {
    /// The modulation index.
    pub fn modulation_index(&self) -> (r: ModulationIndex)
        ensures
            r == self.modulation_index,
    {
        self.modulation_index
    }

    /// The receiver gain.
    pub fn receiver_gain(&self) -> (r: ReceiverGain)
        ensures
            r == self.receiver_gain,
    {
        self.receiver_gain
    }

    /// Decode a register byte read from ARC_B.
    pub fn from_u8(data: u8) -> (r: Result<Self>)
        ensures
            r == arc_b_of(data),
    {
        let modulation_index = data / 16;
        let modulation_index = match ModulationIndex::try_from(modulation_index) {
            Ok(m) => m,
            Err(_) => return Err(Error::InvalidModulationIndex(modulation_index)),
        };
        let receiver_gain = data % 16;
        let receiver_gain = match ReceiverGain::try_from(receiver_gain) {
            Ok(g) => g,
            Err(_) => return Err(Error::InvalidReceiverGain(receiver_gain)),
        };
        Ok(Self { modulation_index, receiver_gain })
    }

    /// A placeholder value used only to address the register for a read.
    pub(crate) fn fake() -> (r: Self)
        ensures
            r == (ArcB { modulation_index: ModulationIndex::Percent17, receiver_gain: ReceiverGain::Db27 }),
    {
        Self { modulation_index: ModulationIndex::Percent17, receiver_gain: ReceiverGain::Db27 }
    }
}

/// Writing an ARC_B value and reading the byte back gives the same value.
pub proof fn lemma_arc_b_roundtrip(a: ArcB)
    ensures
        arc_b_of(arc_b_byte(a)) == Ok::<ArcB, Error>(a),
{
}

/// Every byte that decodes to an ARC_B value is that value's byte.
pub proof fn lemma_arc_b_byte_roundtrip(data: u8)
    ensures
        arc_b_of(data) matches Ok(a) ==> arc_b_byte(a) == data,
{
}

} // verus!
