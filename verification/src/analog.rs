//! Analog configuration registers (ACC_A, ARC_B and the Timer Window),
//! checked against the protocol they are meant for (datasheet Tables 35 and
//! 36) and encoded as the register write that sets them.
use crate::protocol::Protocol;
use crate::selection::Modulation;
use vstd::prelude::*;

verus! {

/// Why an analog parameter was refused.
#[derive(Debug, Copy, Clone, PartialEq, Eq, Structural)]
pub enum AnalogError {
    /// The value is not one the protocol supports.
    UnsupportedAnalogParameterValueForProtocol,
    /// ISO/IEC 15693 needs the modulation to check the value against.
    NoModulationParameter,
    /// The register does not apply to the protocol.
    UnsupportedProtocolSelected,
}

/// An analog register value.
#[derive(Debug, Copy, Clone)]
pub enum AnalogParam {
    AccA(AccA),
    ArcB(ArcB),
    /// Timer Window value for the synchronization between digital and analog
    /// inputs during the demodulation of ISO/IEC 14443 Type A tag frames.
    ///
    /// Minimum `0x50`, maximum `0x60`. Default is `0x52`. Recommended is
    /// `0x56` or `0x58`.
    TimerW(TimerW),
}

/// ARC_B: modulation index and receiver gain.
#[derive(Debug, Copy, Clone)]
pub struct ArcB {
    pub modulation_index: ModulationIndex,
    pub receiver_gain: ReceiverGain,
}

/// Whether an ARC_B modulation index suits a protocol, and with ISO/IEC
/// 15693 its modulation (datasheet Table 35).
pub open spec fn arc_b_check(
    mi: ModulationIndex,
    protocol: Protocol,
    modulation: Option<Modulation>,
) -> Result<(), AnalogError> {
    let bits = index_bits(mi);
    match protocol {
        Protocol::FieldOff => Err(AnalogError::UnsupportedAnalogParameterValueForProtocol),
        Protocol::Iso14443A => if bits != 0x0d {
            Err(AnalogError::UnsupportedAnalogParameterValueForProtocol)
        } else {
            Ok(())
        },
        Protocol::Iso14443B | Protocol::FeliCa => if !(0x1 <= bits <= 0x4) {
            Err(AnalogError::UnsupportedAnalogParameterValueForProtocol)
        } else {
            Ok(())
        },
        Protocol::Iso15693 => match modulation {
            None => Err(AnalogError::NoModulationParameter),
            Some(Modulation::Modulation10Percent) => if !(0x4 <= bits <= 0x6) {
                Err(AnalogError::UnsupportedAnalogParameterValueForProtocol)
            } else {
                Ok(())
            },
            Some(Modulation::Modulation100Percent) => if bits != 0x0d {
                Err(AnalogError::UnsupportedAnalogParameterValueForProtocol)
            } else {
                Ok(())
            },
        },
        Protocol::CardEmulationIso14443A => Err(AnalogError::UnsupportedProtocolSelected),
    }
}

impl ArcB {
    fn validate(&self, protocol: Protocol, modulation: Option<Modulation>) -> (r: Result<
        (),
        AnalogError,
    >)
        ensures
            r == arc_b_check(self.modulation_index, protocol, modulation),
    {
        // See Table 35
        let bits = self.modulation_index.bits();
        match protocol {
            Protocol::FieldOff => Err(AnalogError::UnsupportedAnalogParameterValueForProtocol),
            Protocol::Iso14443A => if bits != 0x0d {
                Err(AnalogError::UnsupportedAnalogParameterValueForProtocol)
            } else {
                Ok(())
            },
            Protocol::Iso14443B | Protocol::FeliCa => if !(0x1 <= bits && bits <= 0x4) {
                Err(AnalogError::UnsupportedAnalogParameterValueForProtocol)
            } else {
                Ok(())
            },
            Protocol::Iso15693 => match modulation {
                None => Err(AnalogError::NoModulationParameter),
                Some(Modulation::Modulation10Percent) => if !(0x4 <= bits && bits <= 0x6) {
                    Err(AnalogError::UnsupportedAnalogParameterValueForProtocol)
                } else {
                    Ok(())
                },
                Some(Modulation::Modulation100Percent) => if bits != 0x0d {
                    Err(AnalogError::UnsupportedAnalogParameterValueForProtocol)
                } else {
                    Ok(())
                },
            },
            Protocol::CardEmulationIso14443A => Err(AnalogError::UnsupportedProtocolSelected),
        }
    }
}

/// ACC_A: load modulation index and demodulator sensitivity.
#[derive(Debug, Copy, Clone)]
pub struct AccA {
    pub load_modulation_index: LoadModulationIndex,
    pub demodulator_sensitivity: DemodulatorSensitivity,
}

/// Whether an ACC_A value suits a protocol: only card emulation uses it,
/// with 100% sensitivity (datasheet Table 36).
pub open spec fn acc_a_check(ds: DemodulatorSensitivity, protocol: Protocol) -> Result<
    (),
    AnalogError,
> {
    match protocol {
        Protocol::CardEmulationIso14443A => if ds != DemodulatorSensitivity::Percent100 {
            Err(AnalogError::UnsupportedAnalogParameterValueForProtocol)
        } else {
            Ok(())
        },
        _ => Err(AnalogError::UnsupportedProtocolSelected),
    }
}

impl AccA {
    fn validate(&self, protocol: Protocol) -> (r: Result<(), AnalogError>)
        ensures
            r == acc_a_check(self.demodulator_sensitivity, protocol),
    {
        // See Table 36
        match protocol {
            Protocol::CardEmulationIso14443A => match self.demodulator_sensitivity {
                DemodulatorSensitivity::Percent100 => Ok(()),
                DemodulatorSensitivity::Percent10 => Err(
                    AnalogError::UnsupportedAnalogParameterValueForProtocol,
                ),
            },
            _ => Err(AnalogError::UnsupportedProtocolSelected),
        }
    }
}

/// Modulation index of ARC_B.
#[derive(Debug, Copy, Clone)]
pub enum ModulationIndex {
    Percent10,
    Percent17,
    Percent25,
    Percent30,
    Percent33,
    Percent36,
    Percent95,
}

/// The four-bit field of each modulation index.
pub open spec fn index_bits(m: ModulationIndex) -> u8 {
    match m {
        ModulationIndex::Percent10 => 0x01,
        ModulationIndex::Percent17 => 0x02,
        ModulationIndex::Percent25 => 0x03,
        ModulationIndex::Percent30 => 0x04,
        ModulationIndex::Percent33 => 0x05,
        ModulationIndex::Percent36 => 0x06,
        ModulationIndex::Percent95 => 0x0D,
    }
}

impl ModulationIndex {
    /// The four-bit field of this index.
    pub fn bits(&self) -> (r: u8)
        ensures
            r == index_bits(*self),
    {
        match self {
            ModulationIndex::Percent10 => 0x01,
            ModulationIndex::Percent17 => 0x02,
            ModulationIndex::Percent25 => 0x03,
            ModulationIndex::Percent30 => 0x04,
            ModulationIndex::Percent33 => 0x05,
            ModulationIndex::Percent36 => 0x06,
            ModulationIndex::Percent95 => 0x0D,
        }
    }
}

/// Receiver gain of ARC_B.
#[derive(Debug, Copy, Clone)]
pub enum ReceiverGain {
    Db34,
    Db32,
    Db27,
    Db20,
    Db8,
}

/// The four-bit field of each receiver gain.
pub open spec fn gain_bits(g: ReceiverGain) -> u8 {
    match g {
        ReceiverGain::Db34 => 0x00,
        ReceiverGain::Db32 => 0x01,
        ReceiverGain::Db27 => 0x03,
        ReceiverGain::Db20 => 0x07,
        ReceiverGain::Db8 => 0x0F,
    }
}

impl ReceiverGain {
    /// The four-bit field of this gain.
    pub fn bits(&self) -> (r: u8)
        ensures
            r == gain_bits(*self),
    {
        match self {
            ReceiverGain::Db34 => 0x00,
            ReceiverGain::Db32 => 0x01,
            ReceiverGain::Db27 => 0x03,
            ReceiverGain::Db20 => 0x07,
            ReceiverGain::Db8 => 0x0F,
        }
    }
}

/// Load modulation index of ACC_A, `0x0..=0xF`.
#[derive(Debug, Copy, Clone)]
pub struct LoadModulationIndex(u8);

impl LoadModulationIndex {
    /// The index as a number, in `0x0..=0xF`.
    pub closed spec fn index(self) -> u8 {
        self.0 % 16
    }

    #[verifier::type_invariant]
    spec fn in_range(self) -> bool {
        self.0 <= 0x0f
    }

    /// An index is at most 0xF.
    pub proof fn lemma_index_bound(self)
        ensures
            self.index() <= 0x0f,
    {
    }

    /// The index as a number, which is at most 0xF.
    fn number(&self) -> (r: u8)
        ensures
            r == self.index(),
            r <= 0x0f,
    {
        proof {
            use_type_invariant(self);
        }
        self.0
    }
}

impl TryFrom<u8> for LoadModulationIndex {
    type Error = ();

    fn try_from(value: u8) -> (r: core::result::Result<Self, ()>)
        ensures
            value <= 0x0f ==> (r matches Ok(i) && i.index() == value),
            value > 0x0f ==> r is Err,
    {
        if value <= 0x0f {
            Ok(Self(value))
        } else {
            Err(())
        }
    }
}

impl vstd::std_specs::convert::TryFromSpecImpl<u8> for LoadModulationIndex {
    open spec fn obeys_try_from_spec() -> bool {
        true
    }

    closed spec fn try_from_spec(v: u8) -> core::result::Result<Self, ()> {
        if v <= 0x0f {
            Ok(Self(v))
        } else {
            Err(())
        }
    }
}

/// Demodulator sensitivity of ACC_A.
#[derive(Debug, Copy, Clone)]
pub enum DemodulatorSensitivity {
    Percent10,
    Percent100,
}

/// The two-bit field of each sensitivity.
pub open spec fn sensitivity_field(d: DemodulatorSensitivity) -> u8 {
    match d {
        DemodulatorSensitivity::Percent10 => 0x01,
        DemodulatorSensitivity::Percent100 => 0x02,
    }
}

/// Timer Window value.
#[derive(Debug, Copy, Clone)]
pub struct TimerW(u8);

/// Whether a Timer Window value suits a protocol: only ISO/IEC 14443-A uses
/// it, within `0x50..=0x60`.
pub open spec fn timer_w_check(value: u8, protocol: Protocol) -> Result<(), AnalogError> {
    if protocol == Protocol::Iso14443A {
        if value < 0x50 || value > 0x60 {
            Err(AnalogError::UnsupportedAnalogParameterValueForProtocol)
        } else {
            Ok(())
        }
    } else {
        Err(AnalogError::UnsupportedProtocolSelected)
    }
}

impl TimerW {
    /// The value as a number.
    pub closed spec fn value(self) -> u8 {
        self.0
    }

    /// A Timer Window value; it is checked against the protocol when it is
    /// made into an [`AnalogParam`].
    pub fn new(timer_w: u8) -> (r: Self)
        ensures
            r.value() == timer_w,
    {
        Self(timer_w)
    }

    fn validate(&self, protocol: Protocol) -> (r: Result<(), AnalogError>)
        ensures
            r == timer_w_check(self.0, protocol),
    {
        match protocol {
            Protocol::Iso14443A => if self.0 < 0x50 || self.0 > 0x60 {
                Err(AnalogError::UnsupportedAnalogParameterValueForProtocol)
            } else {
                Ok(())
            },
            _ => Err(AnalogError::UnsupportedProtocolSelected),
        }
    }
}

/// The ACC_A byte of an analog write holds the sensitivity field in bits
/// 5-4 and the load modulation index in bits 3-0.
pub proof fn lemma_acc_a_analog_byte(a: AccA)
    ensures
        analog_bytes(AnalogParam::AccA(a))[4] == (sensitivity_field(a.demodulator_sensitivity) << 4u8)
            | a.load_modulation_index.index(),
{
    let ds = sensitivity_field(a.demodulator_sensitivity);
    let lmi = a.load_modulation_index.index();
    a.load_modulation_index.lemma_index_bound();
    assert((ds * 16 + lmi) as u8 == (ds << 4u8) | lmi) by (bit_vector)
        requires
            ds <= 2,
            lmi <= 0x0f,
    ;
}

/// The depth of each modulation index, in percent.
pub open spec fn index_percent(m: ModulationIndex) -> nat {
    match m {
        ModulationIndex::Percent10 => 10,
        ModulationIndex::Percent17 => 17,
        ModulationIndex::Percent25 => 25,
        ModulationIndex::Percent30 => 30,
        ModulationIndex::Percent33 => 33,
        ModulationIndex::Percent36 => 36,
        ModulationIndex::Percent95 => 95,
    }
}

/// The gain of each receiver gain setting, in dB.
pub open spec fn gain_decibels(g: ReceiverGain) -> nat {
    match g {
        ReceiverGain::Db34 => 34,
        ReceiverGain::Db32 => 32,
        ReceiverGain::Db27 => 27,
        ReceiverGain::Db20 => 20,
        ReceiverGain::Db8 => 8,
    }
}

/// The ARC_B and ACC_A codes of datasheet Tables 35 and 36: a deeper
/// modulation has a larger index code (10% to 36% as 1 to 6, 95% as 0xD);
/// a smaller receiver gain has a larger code (34, 32, 27, 20, 8 dB as 0x0,
/// 0x1, 0x3, 0x7, 0xF); the demodulator sensitivity is 1 for 10% and 2 for
/// 100%.
pub proof fn lemma_analog_codes(m: ModulationIndex, n: ModulationIndex, g: ReceiverGain, h: ReceiverGain)
    ensures
        (index_percent(m) < index_percent(n)) == (index_bits(m) < index_bits(n)),
        index_percent(m) == 10 ==> index_bits(m) == 1,
        index_percent(m) == 17 ==> index_bits(m) == 2,
        index_percent(m) == 25 ==> index_bits(m) == 3,
        index_percent(m) == 30 ==> index_bits(m) == 4,
        index_percent(m) == 33 ==> index_bits(m) == 5,
        index_percent(m) == 36 ==> index_bits(m) == 6,
        index_percent(m) == 95 ==> index_bits(m) == 0xD,
        (gain_decibels(g) > gain_decibels(h)) == (gain_bits(g) < gain_bits(h)),
        gain_decibels(g) == 34 ==> gain_bits(g) == 0x0,
        gain_decibels(g) == 32 ==> gain_bits(g) == 0x1,
        gain_decibels(g) == 27 ==> gain_bits(g) == 0x3,
        gain_decibels(g) == 20 ==> gain_bits(g) == 0x7,
        gain_decibels(g) == 8 ==> gain_bits(g) == 0xF,
        sensitivity_field(DemodulatorSensitivity::Percent10) == 1,
        sensitivity_field(DemodulatorSensitivity::Percent100) == 2,
{
}

/// The register write that sets an analog value: the WrReg command code,
/// the register address, the index flag, then the index and the value
/// (ACC_A, ARC_B), or the value and the index confirmation (Timer Window).
pub open spec fn analog_bytes(p: AnalogParam) -> Seq<u8> {
    match p {
        AnalogParam::AccA(a) => seq![
            0x04u8,
            0x68u8,
            0x01u8,
            0x04u8,
            (sensitivity_field(a.demodulator_sensitivity) * 16 + a.load_modulation_index.index()) as u8,
        ],
        AnalogParam::ArcB(a) => seq![
            0x04u8,
            0x68u8,
            0x01u8,
            0x01u8,
            (index_bits(a.modulation_index) * 16 + gain_bits(a.receiver_gain)) as u8,
        ],
        AnalogParam::TimerW(t) => seq![0x04u8, 0x3Au8, 0x00u8, t.value(), 0x04u8],
    }
}

impl AnalogParam {
    /// An ACC_A parameter for `protocol`; see [`acc_a_check`].
    pub fn try_new_acc_a(protocol: Protocol, acc_a: AccA) -> (r: Result<AnalogParam, AnalogError>)
        ensures
            match acc_a_check(acc_a.demodulator_sensitivity, protocol) {
                Ok(()) => (r matches Ok(AnalogParam::AccA(a)) && a == acc_a),
                Err(e) => r == Err::<AnalogParam, AnalogError>(e),
            },
    {
        match acc_a.validate(protocol) {
            Ok(()) => Ok(AnalogParam::AccA(acc_a)),
            Err(e) => Err(e),
        }
    }

    /// An ARC_B parameter for `protocol` and, with ISO/IEC 15693, its
    /// modulation; see [`arc_b_check`].
    pub fn try_new_arc_b(protocol: Protocol, modulation: Option<Modulation>, arc_b: ArcB) -> (r:
        Result<AnalogParam, AnalogError>)
        ensures
            match arc_b_check(arc_b.modulation_index, protocol, modulation) {
                Ok(()) => (r matches Ok(AnalogParam::ArcB(a)) && a == arc_b),
                Err(e) => r == Err::<AnalogParam, AnalogError>(e),
            },
    {
        match arc_b.validate(protocol, modulation) {
            Ok(()) => Ok(AnalogParam::ArcB(arc_b)),
            Err(e) => Err(e),
        }
    }

    /// A Timer Window parameter for `protocol`; see [`timer_w_check`].
    pub fn try_new_timer_w(protocol: Protocol, timer_w: TimerW) -> (r: Result<
        AnalogParam,
        AnalogError,
    >)
        ensures
            match timer_w_check(timer_w.value(), protocol) {
                Ok(()) => (r matches Ok(AnalogParam::TimerW(t)) && t == timer_w),
                Err(e) => r == Err::<AnalogParam, AnalogError>(e),
            },
    {
        match timer_w.validate(protocol) {
            Ok(()) => Ok(AnalogParam::TimerW(timer_w)),
            Err(e) => Err(e),
        }
    }

    /// Write the register command that sets the value into the first five
    /// bytes of `slice` (see [`analog_bytes`]) and return their number.
    pub fn as_slice(&self, slice: &mut [u8]) -> (r: usize)
        requires
            old(slice)@.len() >= 5,
        ensures
            r == 5,
            final(slice)@.len() == old(slice)@.len(),
            final(slice)@.take(5) == analog_bytes(*self),
            final(slice)@.skip(5) == old(slice)@.skip(5),
    {
        let bytes: [u8; 5] = match self {
            AnalogParam::AccA(AccA { load_modulation_index, demodulator_sensitivity }) => {
                let sensitivity: u8 = match demodulator_sensitivity {
                    DemodulatorSensitivity::Percent10 => 0x01,
                    DemodulatorSensitivity::Percent100 => 0x02,
                };
                let index = load_modulation_index.number();
                [0x04, 0x68, 0x01, 0x04, sensitivity * 16 + index]
            },
            AnalogParam::ArcB(ArcB { modulation_index, receiver_gain }) => {
                [0x04, 0x68, 0x01, 0x01, modulation_index.bits() * 16 + receiver_gain.bits()]
            },
            AnalogParam::TimerW(TimerW(timer_w)) => [0x04, 0x3A, 0x00, *timer_w, 0x04],
        };
        let mut i: usize = 0;
        while i < 5
            invariant
                i <= 5,
                slice@.len() == old(slice)@.len(),
                old(slice)@.len() >= 5,
                forall|j: int| 0 <= j < i ==> #[trigger] slice@[j] == bytes@[j],
                forall|j: int| 5 <= j < slice@.len() ==> #[trigger] slice@[j] == old(slice)@[j],
            decreases 5 - i,
        {
            slice[i] = bytes[i];
            i = i + 1;
        }
        assert(bytes@ =~= analog_bytes(*self));
        assert(slice@.take(5) =~= analog_bytes(*self));
        assert(slice@.skip(5) =~= old(slice)@.skip(5));
        5
    }
}

} // verus!
