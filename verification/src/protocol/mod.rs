//! Protocols of the ProtocolSelect command and their parameters.
use vstd::prelude::*;

pub mod ce_iso14443a;
pub mod felica;
pub mod iso14443a;
pub mod iso14443b;
pub mod iso15693;

verus! {

/// RF protocols of the ProtocolSelect command (datasheet Table 11).
#[derive(Debug, Eq, PartialEq, Copy, Clone, Structural)]
pub enum Protocol {
    /// Turn the RF field off
    FieldOff,
    /// ISO/IEC 15693
    Iso15693,
    /// ISO/IEC 14443-A
    Iso14443A,
    /// ISO/IEC 14443-B
    Iso14443B,
    /// FeliCa
    FeliCa,
    /// Card emulation with ISO/IEC 14443-A
    CardEmulationIso14443A,
}

/// The protocol byte of each protocol.
pub open spec fn protocol_code(p: Protocol) -> u8 {
    match p {
        Protocol::FieldOff => 0x00,
        Protocol::Iso15693 => 0x01,
        Protocol::Iso14443A => 0x02,
        Protocol::Iso14443B => 0x03,
        Protocol::FeliCa => 0x04,
        Protocol::CardEmulationIso14443A => 0x12,
    }
}

impl Protocol {
    /// The byte that selects this protocol.
    pub fn code(self) -> (r: u8)
        ensures
            r == protocol_code(self),
    {
        match self {
            Protocol::FieldOff => 0x00,
            Protocol::Iso15693 => 0x01,
            Protocol::Iso14443A => 0x02,
            Protocol::Iso14443B => 0x03,
            Protocol::FeliCa => 0x04,
            Protocol::CardEmulationIso14443A => 0x12,
        }
    }
}

/// Number of 13.56 MHz carrier periods in a frame timeout of the form
/// `2^pp * (mm + 1) * unit`.
pub open spec fn timeout_cycles(pp: u8, mm: u8, unit: int) -> int {
    vstd::arithmetic::power2::pow2(pp as nat) * (mm + 1) * unit
}

/// A duration of `cycles` carrier periods in whole microseconds: the
/// carrier runs at 13.56 MHz, so `cycles / 13.56` rounded down.
pub open spec fn cycles_to_us(cycles: int) -> int {
    cycles * 100 / 1356
}

/// Parameters of a ProtocolSelect command.
pub trait ProtocolParams: Sized {
    /// The eight parameter bytes (unused ones are zero) and how many of them
    /// are sent.
    spec fn data_spec(&self) -> (Seq<u8>, usize);

    /// The frame timeout configured by the parameters, in whole
    /// microseconds, when they configure one.
    spec fn timeout_spec(&self) -> Option<u64>;

    fn data(self) -> (r: ([u8; 8], usize))
        ensures
            r.0@ == self.data_spec().0,
            r.1 == self.data_spec().1,
            r.1 <= 8,
    ;

    fn timeout_us(&self) -> (r: Option<u64>)
        ensures
            r == self.timeout_spec(),
    ;
}

/// Parameters of the FieldOff protocol.
pub(crate) struct FieldOff;

impl ProtocolParams for FieldOff {
    open spec fn data_spec(&self) -> (Seq<u8>, usize) {
        (seq![0u8, 0, 0, 0, 0, 0, 0, 0], 1)
    }

    open spec fn timeout_spec(&self) -> Option<u64> {
        None
    }

    fn data(self) -> (r: ([u8; 8], usize)) {
        let r = ([0x00, 0x00, 0x00, 0x00, 0x00, 0x00, 0x00, 0x00], 1);
        assert(r.0@ =~= seq![0u8, 0, 0, 0, 0, 0, 0, 0]);
        r
    }

    fn timeout_us(&self) -> (r: Option<u64>) {
        None
    }
}

/// `2^pp * (mm + 1) * unit` for `pp <= 15`, with the bound that keeps it in
/// a `u64`.
pub(crate) fn frame_timeout_cycles(pp: u8, mm: u8, unit: u64) -> (r: u64)
    requires
        pp <= 15,
        unit <= 0x100_0000,
    ensures
        r == timeout_cycles(pp, mm, unit as int),
        r <= 0x8000 * 256 * 0x100_0000,
{
    let mut shift: u64 = 1;
    let mut i: u8 = 0;
    proof {
        vstd::arithmetic::power2::lemma2_to64();
    }
    while i < pp
        invariant
            i <= pp <= 15,
            shift == vstd::arithmetic::power2::pow2(i as nat),
            vstd::arithmetic::power2::pow2(15) == 0x8000,
        decreases pp - i,
    {
        proof {
            vstd::arithmetic::power2::lemma_pow2_unfold((i + 1) as nat);
            if i + 1 < 15 {
                vstd::arithmetic::power2::lemma_pow2_strictly_increases((i + 1) as nat, 15);
            }
        }
        shift = shift * 2;
        i = i + 1;
    }
    assert(shift <= 0x8000) by {
        if pp < 15 {
            vstd::arithmetic::power2::lemma_pow2_strictly_increases(pp as nat, 15);
        }
    }
    let factor: u64 = mm as u64 + 1;
    assert(shift * factor <= 0x8000 * 256) by (nonlinear_arith)
        requires
            shift <= 0x8000,
            factor <= 256,
    ;
    assert(shift * factor * unit <= 0x8000 * 256 * 0x100_0000) by (nonlinear_arith)
        requires
            shift * factor <= 0x8000 * 256,
            unit <= 0x100_0000,
    ;
    shift * factor * unit
}

/// `cycles / 13.56` rounded down, for a cycle count of a frame timeout.
pub(crate) fn us_of_cycles(cycles: u64) -> (r: u64)
    requires
        cycles <= 0x8000 * 256 * 0x100_0000,
    ensures
        r == cycles_to_us(cycles as int),
{
    cycles * 100 / 1356
}

/// The protocol codes of ProtocolSelect (datasheet Table 11).
pub proof fn lemma_protocol_codes()
    ensures
        protocol_code(Protocol::FieldOff) == 0x00,
        protocol_code(Protocol::Iso15693) == 0x01,
        protocol_code(Protocol::Iso14443A) == 0x02,
        protocol_code(Protocol::Iso14443B) == 0x03,
        protocol_code(Protocol::FeliCa) == 0x04,
        protocol_code(Protocol::CardEmulationIso14443A) == 0x12,
{
}

} // verus!
