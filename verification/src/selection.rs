//! Builders of ProtocolSelect parameters: each produces the protocol and the
//! parameter bytes of a ProtocolSelect command (datasheet Table 11).
use crate::command::bit_of;
use vstd::prelude::*;

verus! {

/// Protocols a [`ProtocolSelection`] can select (datasheet Table 11).
#[derive(Debug, Eq, PartialEq, Structural)]
pub enum Protocol {
    /// ISO/IEC 15693
    Iso15693,
    /// ISO/IEC 14443-A
    Iso14443A,
    /// ISO/IEC 14443-B
    Iso14443B,
    /// FeliCa
    FeliCa,
    /// Card Emulation with ISO/IEC 14443-A
    CardEmulationIso14443A,
}

/// The protocol byte of each protocol.
pub open spec fn selection_code(p: Protocol) -> u8 {
    match p {
        Protocol::Iso15693 => 0x01,
        Protocol::Iso14443A => 0x02,
        Protocol::Iso14443B => 0x03,
        Protocol::FeliCa => 0x04,
        Protocol::CardEmulationIso14443A => 0x12,
    }
}

impl Protocol {
    /// The byte that selects this protocol.
    pub fn code(&self) -> (r: u8)
        ensures
            r == selection_code(*self),
    {
        match self {
            Protocol::Iso15693 => 0x01,
            Protocol::Iso14443A => 0x02,
            Protocol::Iso14443B => 0x03,
            Protocol::FeliCa => 0x04,
            Protocol::CardEmulationIso14443A => 0x12,
        }
    }
}

/// A protocol with its ProtocolSelect parameters: the first `param_len` of
/// the eight `parameters` bytes are sent.
pub struct ProtocolSelection {
    pub protocol: Protocol,
    pub parameters: [u8; 8],
    pub param_len: usize,
}

/// Data rate of ISO/IEC 15693.
#[derive(Debug)]
pub enum Iso15693Speed {
    Speed52Kbps,
    Speed26KbpsH,
    Speed6KbpsL,
}

/// The two-bit field of each ISO/IEC 15693 data rate.
pub open spec fn speed_bits(s: Iso15693Speed) -> u8 {
    match s {
        Iso15693Speed::Speed52Kbps => 0b01,
        Iso15693Speed::Speed26KbpsH => 0b00,
        Iso15693Speed::Speed6KbpsL => 0b10,
    }
}

impl Iso15693Speed {
    /// The two-bit field of this data rate.
    pub fn bits(&self) -> (r: u8)
        ensures
            r == speed_bits(*self),
    {
        match self {
            Iso15693Speed::Speed52Kbps => 0b01,
            Iso15693Speed::Speed26KbpsH => 0b00,
            Iso15693Speed::Speed6KbpsL => 0b10,
        }
    }
}

impl Default for Iso15693Speed {
    fn default() -> (r: Self)
        ensures
            r == Iso15693Speed::Speed26KbpsH,
    {
        Iso15693Speed::Speed26KbpsH
    }
}

/// Modulation depth of ISO/IEC 15693.
#[derive(Debug)]
pub enum Modulation {
    Modulation100Percent,
    Modulation10Percent,
}

impl Default for Modulation {
    fn default() -> (r: Self)
        ensures
            r == Modulation::Modulation100Percent,
    {
        Modulation::Modulation100Percent
    }
}

/// Subcarrier of ISO/IEC 15693.
#[derive(Debug)]
pub enum Subcarrier {
    Single,
    Double,
}

impl Default for Subcarrier {
    fn default() -> (r: Self)
        ensures
            r == Subcarrier::Single,
    {
        Subcarrier::Single
    }
}

/// Builder of ISO/IEC 15693 parameters.
#[derive(Debug)]
pub struct Iso15693ProtocolBuilder {
    speed: Iso15693Speed,
    wait_for_sof: bool,
    modulation: Modulation,
    subcarrier: Subcarrier,
    with_crc: bool,
}

/// The ISO/IEC 15693 parameter byte: data rate in bits 5-4, wait for SOF in
/// bit 3, 10% modulation in bit 2, double subcarrier in bit 1, CRC in bit 0.
pub open spec fn iso15693_byte(
    speed: Iso15693Speed,
    wait_for_sof: bool,
    modulation: Modulation,
    subcarrier: Subcarrier,
    with_crc: bool,
) -> u8 {
    (speed_bits(speed) * 16 + bit_of(wait_for_sof) * 8 + bit_of(
        modulation == Modulation::Modulation10Percent,
    ) * 4 + bit_of(subcarrier == Subcarrier::Double) * 2 + bit_of(with_crc)) as u8
}

/// Eight parameter bytes: `first`, then zeros.
pub open spec fn one_byte_parameters(first: u8) -> Seq<u8> {
    seq![first, 0u8, 0u8, 0u8, 0u8, 0u8, 0u8, 0u8]
}

impl Default for Iso15693ProtocolBuilder {
    fn default() -> (r: Self)
        ensures
            r.speed_spec() == Iso15693Speed::Speed26KbpsH,
            !r.wait_for_sof_spec(),
            r.modulation_spec() == Modulation::Modulation100Percent,
            r.subcarrier_spec() == Subcarrier::Single,
            !r.with_crc_spec(),
            r.param_byte() == 0,
    {
        Iso15693ProtocolBuilder {
            speed: Iso15693Speed::default(),
            wait_for_sof: false,
            modulation: Modulation::default(),
            subcarrier: Subcarrier::default(),
            with_crc: false,
        }
    }
}

impl Iso15693ProtocolBuilder {
    /// The data rate.
    pub closed spec fn speed_spec(&self) -> Iso15693Speed {
        self.speed
    }

    /// Whether the chip waits for the start of frame.
    pub closed spec fn wait_for_sof_spec(&self) -> bool {
        self.wait_for_sof
    }

    /// The modulation depth.
    pub closed spec fn modulation_spec(&self) -> Modulation {
        self.modulation
    }

    /// The subcarrier.
    pub closed spec fn subcarrier_spec(&self) -> Subcarrier {
        self.subcarrier
    }

    /// Whether a CRC is appended.
    pub closed spec fn with_crc_spec(&self) -> bool {
        self.with_crc
    }

    /// The parameter byte the builder produces.
    pub open spec fn param_byte(&self) -> u8 {
        iso15693_byte(
            self.speed_spec(),
            self.wait_for_sof_spec(),
            self.modulation_spec(),
            self.subcarrier_spec(),
            self.with_crc_spec(),
        )
    }

    /// The parameters: ISO/IEC 15693 with one parameter byte.
    pub fn build(self) -> (r: ProtocolSelection)
        ensures
            r.protocol == Protocol::Iso15693,
            r.param_len == 1,
            r.parameters@ == one_byte_parameters(self.param_byte()),
    {
        let modulation_bit: u8 = match self.modulation {
            Modulation::Modulation10Percent => 4,
            Modulation::Modulation100Percent => 0,
        };
        let subcarrier_bit: u8 = match self.subcarrier {
            Subcarrier::Double => 2,
            Subcarrier::Single => 0,
        };
        let sof_bit: u8 = if self.wait_for_sof {
            8
        } else {
            0
        };
        let crc_bit: u8 = if self.with_crc {
            1
        } else {
            0
        };
        let param_byte = self.speed.bits() * 16 + sof_bit + modulation_bit + subcarrier_bit
            + crc_bit;
        let parameters = [param_byte, 0, 0, 0, 0, 0, 0, 0];
        assert(parameters@ =~= one_byte_parameters(self.param_byte()));
        ProtocolSelection { protocol: Protocol::Iso15693, param_len: 1, parameters }
    }

    /// Set the data rate.
    pub fn speed(self, speed: Iso15693Speed) -> (r: Self)
        ensures
            r.speed_spec() == speed,
            r.wait_for_sof_spec() == self.wait_for_sof_spec(),
            r.modulation_spec() == self.modulation_spec(),
            r.subcarrier_spec() == self.subcarrier_spec(),
            r.with_crc_spec() == self.with_crc_spec(),
    {
        Self { speed, ..self }
    }

    /// Wait for the start of frame.
    pub fn wait_for_sof(self) -> (r: Self)
        ensures
            r.wait_for_sof_spec(),
            r.speed_spec() == self.speed_spec(),
            r.modulation_spec() == self.modulation_spec(),
            r.subcarrier_spec() == self.subcarrier_spec(),
            r.with_crc_spec() == self.with_crc_spec(),
    {
        Self { wait_for_sof: true, ..self }
    }

    /// Set the modulation depth.
    pub fn modulation(self, modulation: Modulation) -> (r: Self)
        ensures
            r.modulation_spec() == modulation,
            r.speed_spec() == self.speed_spec(),
            r.wait_for_sof_spec() == self.wait_for_sof_spec(),
            r.subcarrier_spec() == self.subcarrier_spec(),
            r.with_crc_spec() == self.with_crc_spec(),
    {
        Self { modulation, ..self }
    }

    /// Set the subcarrier.
    pub fn subcarrier(self, subcarrier: Subcarrier) -> (r: Self)
        ensures
            r.subcarrier_spec() == subcarrier,
            r.speed_spec() == self.speed_spec(),
            r.wait_for_sof_spec() == self.wait_for_sof_spec(),
            r.modulation_spec() == self.modulation_spec(),
            r.with_crc_spec() == self.with_crc_spec(),
    {
        Self { subcarrier, ..self }
    }

    /// Append a CRC.
    pub fn with_crc(self) -> (r: Self)
        ensures
            r.with_crc_spec(),
            r.speed_spec() == self.speed_spec(),
            r.wait_for_sof_spec() == self.wait_for_sof_spec(),
            r.modulation_spec() == self.modulation_spec(),
            r.subcarrier_spec() == self.subcarrier_spec(),
    {
        Self { with_crc: true, ..self }
    }
}

/// Builder of ISO/IEC 14443-A card emulation parameters.
#[derive(Debug)]
pub struct CardEmulationIso14443AProtocolBuilder {
    wait_for_field: bool,
    clock_from_field: bool,
}

impl Default for CardEmulationIso14443AProtocolBuilder {
    fn default() -> (r: Self)
        ensures
            !r.wait_for_field_spec() && !r.clock_from_field_spec(),
    {
        CardEmulationIso14443AProtocolBuilder { wait_for_field: false, clock_from_field: false }
    }
}

impl CardEmulationIso14443AProtocolBuilder {
    /// Whether the chip waits for the reader field.
    pub closed spec fn wait_for_field_spec(&self) -> bool {
        self.wait_for_field
    }

    /// Whether the chip takes its clock from the field.
    pub closed spec fn clock_from_field_spec(&self) -> bool {
        self.clock_from_field
    }

    /// The parameters: card emulation with one parameter byte, bit 3
    /// waiting for the field and bit 1 taking the clock from it.
    pub fn build(self) -> (r: ProtocolSelection)
        ensures
            r.protocol == Protocol::CardEmulationIso14443A,
            r.param_len == 1,
            r.parameters@ == one_byte_parameters(
                (bit_of(self.wait_for_field_spec()) * 8 + bit_of(self.clock_from_field_spec()) * 2)
                    as u8,
            ),
    {
        let wait_bit: u8 = if self.wait_for_field {
            8
        } else {
            0
        };
        let clock_bit: u8 = if self.clock_from_field {
            2
        } else {
            0
        };
        let parameters = [wait_bit + clock_bit, 0, 0, 0, 0, 0, 0, 0];
        assert(parameters@ =~= one_byte_parameters(
            (bit_of(self.wait_for_field) * 8 + bit_of(self.clock_from_field) * 2) as u8,
        ));
        ProtocolSelection { protocol: Protocol::CardEmulationIso14443A, parameters, param_len: 1 }
    }

    /// Wait for the reader field.
    pub fn wait_for_field(self) -> (r: Self)
        ensures
            r.wait_for_field_spec(),
            r.clock_from_field_spec() == self.clock_from_field_spec(),
    {
        Self { wait_for_field: true, ..self }
    }

    /// Take the clock from the field.
    pub fn clock_from_field(self) -> (r: Self)
        ensures
            r.wait_for_field_spec() == self.wait_for_field_spec(),
            r.clock_from_field_spec(),
    {
        Self { clock_from_field: true, ..self }
    }
}

/// Data rate of ISO/IEC 14443-A.
#[derive(Debug, Copy, Clone)]
pub enum Iso14443ADataRate {
    Kbps106,
    Kbps212,
    Kbps424,
}

/// The two-bit field of each ISO/IEC 14443-A data rate.
pub open spec fn data_rate_bits(d: Iso14443ADataRate) -> u8 {
    match d {
        Iso14443ADataRate::Kbps106 => 0b00,
        Iso14443ADataRate::Kbps212 => 0b01,
        Iso14443ADataRate::Kbps424 => 0b10,
    }
}

impl Iso14443ADataRate {
    /// The two-bit field of this data rate.
    pub fn bits(&self) -> (r: u8)
        ensures
            r == data_rate_bits(*self),
    {
        match self {
            Iso14443ADataRate::Kbps106 => 0b00,
            Iso14443ADataRate::Kbps212 => 0b01,
            Iso14443ADataRate::Kbps424 => 0b10,
        }
    }
}

impl Default for Iso14443ADataRate {
    fn default() -> (r: Self)
        ensures
            r == Iso14443ADataRate::Kbps106,
    {
        Iso14443ADataRate::Kbps106
    }
}

/// Builder of ISO/IEC 14443-A reader parameters.
#[derive(Debug)]
pub struct Iso14443AProtocolBuilder {
    tx_data_rate: Iso14443ADataRate,
    rx_data_rate: Iso14443ADataRate,
    fdt: Option<(u8, u8, u8)>,
}

impl Default for Iso14443AProtocolBuilder {
    fn default() -> (r: Self)
        ensures
            r.tx_spec() == Iso14443ADataRate::Kbps106,
            r.rx_spec() == Iso14443ADataRate::Kbps106,
            r.fdt_spec() is None,
    {
        Iso14443AProtocolBuilder {
            tx_data_rate: Iso14443ADataRate::default(),
            rx_data_rate: Iso14443ADataRate::default(),
            fdt: None,
        }
    }
}

impl Iso14443AProtocolBuilder {
    /// The transmission data rate.
    pub closed spec fn tx_spec(&self) -> Iso14443ADataRate {
        self.tx_data_rate
    }

    /// The reception data rate.
    pub closed spec fn rx_spec(&self) -> Iso14443ADataRate {
        self.rx_data_rate
    }

    /// The frame delay time parameters `(pp, mm, dd)`, if set.
    pub closed spec fn fdt_spec(&self) -> Option<(u8, u8, u8)> {
        self.fdt
    }

    /// The parameters: ISO/IEC 14443-A with the data rates in the first
    /// byte (transmission in bits 7-6, reception in bits 5-4), followed by
    /// `pp`, `mm`, `dd` when a frame delay time is set.
    pub fn build(self) -> (r: ProtocolSelection)
        ensures
            r.protocol == Protocol::Iso14443A,
            r.parameters@[0] == data_rate_bits(self.tx_spec()) * 64 + data_rate_bits(
                self.rx_spec(),
            ) * 16,
            match self.fdt_spec() {
                Some((pp, mm, dd)) => r.param_len == 4 && r.parameters@.subrange(1, 8) == seq![
                    pp,
                    mm,
                    dd,
                    0u8,
                    0u8,
                    0u8,
                    0u8,
                ],
                None => r.param_len == 1 && r.parameters@.subrange(1, 8) == Seq::new(
                    7,
                    |i: int| 0u8,
                ),
            },
    {
        let param_byte = self.tx_data_rate.bits() * 64 + self.rx_data_rate.bits() * 16;
        let (parameters, param_len) = match self.fdt {
            Some((pp, mm, dd)) => ([param_byte, pp, mm, dd, 0, 0, 0, 0], 4),
            None => ([param_byte, 0, 0, 0, 0, 0, 0, 0], 1),
        };
        assert(parameters@.subrange(1, 8) =~= match self.fdt {
            Some((pp, mm, dd)) => seq![pp, mm, dd, 0u8, 0u8, 0u8, 0u8],
            None => Seq::new(7, |i: int| 0u8),
        });
        ProtocolSelection { protocol: Protocol::Iso14443A, parameters, param_len }
    }

    /// Set the transmission data rate.
    pub fn tx_data_rate(self, tx_data_rate: Iso14443ADataRate) -> (r: Self)
        ensures
            r.tx_spec() == tx_data_rate,
            r.rx_spec() == self.rx_spec(),
            r.fdt_spec() == self.fdt_spec(),
    {
        Self { tx_data_rate, ..self }
    }

    /// Set the reception data rate.
    pub fn rx_data_rate(self, rx_data_rate: Iso14443ADataRate) -> (r: Self)
        ensures
            r.tx_spec() == self.tx_spec(),
            r.rx_spec() == rx_data_rate,
            r.fdt_spec() == self.fdt_spec(),
    {
        Self { rx_data_rate, ..self }
    }

    /// Set the frame delay time parameters.
    pub fn fdt(self, pp: u8, mm: u8, dd: u8) -> (r: Self)
        ensures
            r.tx_spec() == self.tx_spec(),
            r.rx_spec() == self.rx_spec(),
            r.fdt_spec() == Some((pp, mm, dd)),
    {
        Self { fdt: Some((pp, mm, dd)), ..self }
    }
}

/// The ISO/IEC 15693 parameter byte a builder produces (datasheet Table
/// 11): each option in its own bit (CRC bit 0, double sub-carrier bit 1,
/// 10% modulation bit 2, wait for SOF bit 3) and the data rate in bits 5-4
/// (26 kbps as 0, 52 kbps as 1, 6 kbps as 2); bits 7-6 are clear.
pub proof fn lemma_iso15693_builder_byte(b: Iso15693ProtocolBuilder)
    ensures
        (b.param_byte() % 2 == 1) == b.with_crc_spec(),
        (b.param_byte() / 2 % 2 == 1) == (b.subcarrier_spec() == Subcarrier::Double),
        (b.param_byte() / 4 % 2 == 1) == (b.modulation_spec() == Modulation::Modulation10Percent),
        (b.param_byte() / 8 % 2 == 1) == b.wait_for_sof_spec(),
        b.speed_spec() == Iso15693Speed::Speed26KbpsH ==> b.param_byte() / 16 == 0,
        b.speed_spec() == Iso15693Speed::Speed52Kbps ==> b.param_byte() / 16 == 1,
        b.speed_spec() == Iso15693Speed::Speed6KbpsL ==> b.param_byte() / 16 == 2,
{
}

/// The ISO/IEC 14443-A data rates are coded as 0 for 106, 1 for 212 and 2
/// for 424 kbps (datasheet Table 12): each doubling of the rate adds one.
pub proof fn lemma_iso14443a_rate_codes()
    ensures
        data_rate_bits(Iso14443ADataRate::Kbps106) == 0,
        data_rate_bits(Iso14443ADataRate::Kbps212) == 1,
        data_rate_bits(Iso14443ADataRate::Kbps424) == 2,
{
}

/// The protocol codes of ProtocolSelect (datasheet Table 11).
pub proof fn lemma_selection_codes()
    ensures
        selection_code(Protocol::Iso15693) == 0x01,
        selection_code(Protocol::Iso14443A) == 0x02,
        selection_code(Protocol::Iso14443B) == 0x03,
        selection_code(Protocol::FeliCa) == 0x04,
        selection_code(Protocol::CardEmulationIso14443A) == 0x12,
{
}

} // verus!
