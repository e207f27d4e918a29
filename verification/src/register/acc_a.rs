//! ACC_A register: load modulation index and demodulator sensitivity of the
//! card emulator.
use super::Register;
use crate::error::{Error, Result};
use vstd::prelude::*;

verus! {

/// Load modulation index, `0x1..=0xF`.
#[derive(Debug, Copy, Clone, PartialEq, Eq, Structural)]
pub struct LoadModulationIndex(u8);

impl LoadModulationIndex {
    /// The index as a number.
    pub closed spec fn index(self) -> u8 {
        self.0
    }

    /// The index whose number is `i`.
    pub closed spec fn with_index(i: u8) -> Self {
        LoadModulationIndex(i)
    }

    /// An index is its number: [`with_index`](Self::with_index) gives back
    /// the number it was made with, and two indices with the same number
    /// are the same.
    pub proof fn lemma_index(i: u8, a: Self, b: Self)
        ensures
            Self::with_index(i).index() == i,
            Self::with_index(a.index()) == a,
            a.index() == b.index() ==> a == b,
    {
    }

    /// The valid range of the index.
    pub open spec fn valid(self) -> bool {
        0x1 <= self.index() <= 0xF
    }

    /// The smallest index, 0x1.
    pub fn min() -> (r: Self)
        ensures
            r.index() == 0x1,
    {
        Self(0x1)
    }

    /// The largest index, 0xF.
    pub fn max() -> (r: Self)
        ensures
            r.index() == 0xF,
    {
        Self(0xf)
    }

    /// The index as a number.
    pub fn value(&self) -> (r: u8)
        ensures
            r == self.index(),
    {
        self.0
    }
}

impl Default for LoadModulationIndex {
    fn default() -> (r: Self)
        ensures
            r.index() == 0x7,
    {
        Self(0x7)
    }
}

impl TryFrom<u8> for LoadModulationIndex {
    type Error = ();

    fn try_from(value: u8) -> (r: core::result::Result<Self, ()>)
        ensures
            (0x1 <= value <= 0xF) ==> r is Ok && r->Ok_0.index() == value,
            !(0x1 <= value <= 0xF) ==> r is Err,
    {
        if !(0x1 <= value && value <= 0xf) {
            return Err(());
        }
        Ok(LoadModulationIndex(value))
    }
}

impl vstd::std_specs::convert::TryFromSpecImpl<u8> for LoadModulationIndex {
    open spec fn obeys_try_from_spec() -> bool {
        true
    }

    closed spec fn try_from_spec(v: u8) -> core::result::Result<Self, ()> {
        if 0x1 <= v <= 0xF {
            Ok(LoadModulationIndex(v))
        } else {
            Err(())
        }
    }
}

/// Sensitivity of the demodulator (datasheet Table 36).
#[derive(Debug, Copy, Clone, PartialEq, Eq, Structural)]
pub enum DemodulatorSensitivity {
    Percent10,
    Percent100,
}

/// The two-bit field of each sensitivity.
pub open spec fn sensitivity_bits(d: DemodulatorSensitivity) -> u8 {
    match d {
        DemodulatorSensitivity::Percent10 => 0x1,
        DemodulatorSensitivity::Percent100 => 0x2,
    }
}

/// The sensitivity selected by a two-bit field, if any.
pub open spec fn sensitivity_of(v: u8) -> core::result::Result<DemodulatorSensitivity, ()> {
    if v == 0x1 {
        Ok(DemodulatorSensitivity::Percent10)
    } else if v == 0x2 {
        Ok(DemodulatorSensitivity::Percent100)
    } else {
        Err(())
    }
}

impl DemodulatorSensitivity {
    /// The two-bit field of this sensitivity.
    pub fn bits(self) -> (r: u8)
        ensures
            r == sensitivity_bits(self),
    {
        match self {
            DemodulatorSensitivity::Percent10 => 0x1,
            DemodulatorSensitivity::Percent100 => 0x2,
        }
    }
}

impl TryFrom<u8> for DemodulatorSensitivity {
    type Error = ();

    fn try_from(value: u8) -> (r: core::result::Result<Self, ()>)
        ensures
            r == sensitivity_of(value),
    {
        match value {
            0x1 => Ok(Self::Percent10),
            0x2 => Ok(Self::Percent100),
            _ => Err(()),
        }
    }
}

impl vstd::std_specs::convert::TryFromSpecImpl<u8> for DemodulatorSensitivity {
    open spec fn obeys_try_from_spec() -> bool {
        true
    }

    open spec fn try_from_spec(v: u8) -> core::result::Result<Self, ()> {
        sensitivity_of(v)
    }
}

/// ACC_A register value: sensitivity in bits 5-4, load modulation index in
/// bits 3-0, bits 7-6 reserved.
#[derive(Debug, Copy, Clone, PartialEq, Eq, Structural)]
pub struct AccA {
    pub load_modulation_index: LoadModulationIndex,
    pub demodulator_sensitivity: DemodulatorSensitivity,
}

/// The register byte of an ACC_A value.
pub open spec fn acc_a_byte(a: AccA) -> u8 {
    (sensitivity_bits(a.demodulator_sensitivity) * 16 + a.load_modulation_index.index()) as u8
}

/// The ACC_A value read back from a register byte.
pub open spec fn acc_a_of(data: u8) -> Result<AccA> {
    let lmi = data % 16;
    let ds = (data / 16) % 4;
    let rfu = data / 64;
    if !(0x1 <= lmi <= 0xF) {
        Err(Error::InvalidLoadModulationIndex { load_modulation_index: lmi, min: 0x1, max: 0xf })
    } else if sensitivity_of(ds) is Err {
        Err(Error::InvalidDemodulatorSensitivity(ds))
    } else if rfu != 0 {
        Err(Error::InvalidRFU(rfu))
    } else {
        Ok(
            AccA {
                load_modulation_index: LoadModulationIndex::with_index(lmi),
                demodulator_sensitivity: sensitivity_of(ds)->Ok_0,
            },
        )
    }
}

impl Register for AccA {
    open spec fn readable(&self) -> bool {
        true
    }

    open spec fn writable(&self) -> bool {
        true
    }

    open spec fn read_addr_spec(&self) -> u8 {
        0x69
    }

    open spec fn write_addr_spec(&self) -> u8 {
        0x68
    }

    open spec fn index_confirmation_spec(&self) -> u8 {
        0x04
    }

    open spec fn has_index_spec(&self) -> bool {
        true
    }

    open spec fn value_spec(&self) -> u8 {
        acc_a_byte(*self)
    }

    fn read_addr(&self) -> (r: u8) {
        0x69
    }

    fn write_addr(&self) -> (r: u8) {
        0x68
    }

    fn index_confirmation(&self) -> (r: u8) {
        0x04
    }

    fn has_index(&self) -> (r: bool) {
        true
    }

    fn value(&self) -> (r: u8) {
        let lmi = self.load_modulation_index.0 as u16;
        let v: u16 = self.demodulator_sensitivity.bits() as u16 * 16 + lmi;
        v as u8
    }
}

impl AccA {
    /// Decode a register byte read from ACC_A.
    pub fn from_u8(data: u8) -> (r: Result<Self>)
        ensures
            r == acc_a_of(data),
    {
        let load_modulation_index = data % 16;
        let load_modulation_index = match LoadModulationIndex::try_from(load_modulation_index) {
            Ok(i) => i,
            Err(_) => {
                return Err(
                    Error::InvalidLoadModulationIndex {
                        load_modulation_index,
                        min: 0x1,
                        max: 0xf,
                    },
                )
            },
        };
        let demodulator_sensitivity = (data / 16) % 4;
        let demodulator_sensitivity = match DemodulatorSensitivity::try_from(
            demodulator_sensitivity,
        ) {
            Ok(d) => d,
            Err(_) => return Err(Error::InvalidDemodulatorSensitivity(demodulator_sensitivity)),
        };
        let rfu = data / 64;
        if rfu == 0 {
            Ok(Self { load_modulation_index, demodulator_sensitivity })
        } else {
            Err(Error::InvalidRFU(rfu))
        }
    }
}

/// Writing a valid ACC_A value and reading the byte back gives the same value.
pub proof fn lemma_acc_a_roundtrip(a: AccA)
    requires
        a.load_modulation_index.valid(),
    ensures
        acc_a_of(acc_a_byte(a)) == Ok::<AccA, Error>(a),
{
}

/// The ACC_A register (datasheet Table 36): the demodulator sensitivity in
/// bits 5-4 (10% as 1, 100% as 2) and the load modulation index in bits
/// 3-0; bits 7-6 are clear. A byte decodes to the value that has it, when
/// its index is 1 to 15, its sensitivity field 1 or 2 and bits 7-6 clear.
pub proof fn lemma_acc_a_layout(a: AccA, v: u8)
    ensures
        a.load_modulation_index.valid() ==> {
            &&& acc_a_byte(a) % 16 == a.load_modulation_index.index()
            &&& a.demodulator_sensitivity == DemodulatorSensitivity::Percent10 ==> acc_a_byte(a) / 16 == 1
            &&& a.demodulator_sensitivity == DemodulatorSensitivity::Percent100 ==> acc_a_byte(a) / 16 == 2
        },
        acc_a_of(v) is Ok <==> (1 <= v % 16 && (v / 16 == 1 || v / 16 == 2)),
        acc_a_of(v) matches Ok(b) ==> b.load_modulation_index.index() == v % 16 && (b.demodulator_sensitivity == DemodulatorSensitivity::Percent10) == (v / 16 == 1),
{
    LoadModulationIndex::lemma_index(v % 16, a.load_modulation_index, a.load_modulation_index);
}

} // verus!
