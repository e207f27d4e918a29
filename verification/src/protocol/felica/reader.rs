//! FeliCa reader parameters.
use super::super::{
    cycles_to_us, frame_timeout_cycles, timeout_cycles, us_of_cycles, ProtocolParams,
};
use crate::command::bit_of;
use vstd::prelude::*;

verus! {

/// Largest exponent of the response waiting time that FeliCa uses: a wait
/// of about 4.9 s.
pub const MAX_PP: u8 = 14;

/// Data rate of one direction.
#[derive(Debug, Copy, Clone, PartialEq, Eq, Structural)]
pub enum DataRate {
    Kbps106,
    Kbps212,
    Kbps424,
}

impl Default for DataRate {
    fn default() -> (r: Self)
        ensures
            r == DataRate::Kbps106,
    {
        DataRate::Kbps106
    }
}

/// The two-bit field of each data rate.
pub open spec fn data_rate_bits(d: DataRate) -> u8 {
    match d {
        DataRate::Kbps106 => 0b00,
        DataRate::Kbps212 => 0b01,
        DataRate::Kbps424 => 0b10,
    }
}

impl DataRate {
    /// The two-bit field of this data rate.
    pub fn bits(self) -> (r: u8)
        ensures
            r == data_rate_bits(self),
    {
        match self {
            DataRate::Kbps106 => 0b00,
            DataRate::Kbps212 => 0b01,
            DataRate::Kbps424 => 0b10,
        }
    }
}

/// Response waiting time: `2^pp * (mm + 1) * 4096` carrier periods, with
/// `pp <= 15`.
#[derive(Debug, Copy, Clone, PartialEq, Eq, Structural)]
pub struct RWT {
    pp: u8,
    mm: u8,
}

impl RWT {
    #[verifier::type_invariant]
    spec fn rwt_in_range(self) -> bool {
        self.pp <= 15
    }

    pub closed spec fn pp_spec(self) -> u8 {
        self.pp
    }

    pub closed spec fn mm_spec(self) -> u8 {
        self.mm
    }

    /// The waiting time in carrier periods.
    pub open spec fn cycles_spec(self) -> int {
        timeout_cycles(self.pp_spec(), self.mm_spec(), 4096)
    }

    /// `None` when `pp > 15`.
    pub fn new(pp: u8, mm: u8) -> (r: Option<Self>)
        ensures
            r is Some <==> pp <= 15,
            r matches Some(f) ==> f.pp_spec() == pp && f.mm_spec() == mm,
    {
        if pp > 15 {
            return None;
        }
        Some(Self { pp, mm })
    }

    /// The waiting time in 13.56 MHz carrier periods.
    pub fn carrier_cycles(self) -> (r: u64)
        ensures
            r == self.cycles_spec(),
            r <= 0x8000 * 256 * 0x100_0000,
    {
        proof {
            use_type_invariant(&self);
        }
        frame_timeout_cycles(self.pp, self.mm, 4096)
    }
}

impl Default for RWT {
    fn default() -> (r: Self)
        ensures
            r.pp_spec() == 0 && r.mm_spec() == 0,
    {
        RWT { pp: 0, mm: 0 }
    }
}

/// Parameters of ProtocolSelect for a FeliCa reader.
#[derive(Debug)]
pub struct Parameters {
    tx_data_rate: DataRate,
    rx_data_rate: DataRate,
    with_crc: bool,
    rwt: Option<RWT>,
}

impl Default for Parameters {
    fn default() -> (r: Self)
        ensures
            r.tx_spec() == DataRate::Kbps106,
            r.rx_spec() == DataRate::Kbps106,
            !r.with_crc_spec(),
            r.rwt_spec() is None,
    {
        Self {
            tx_data_rate: DataRate::Kbps106,
            rx_data_rate: DataRate::Kbps106,
            with_crc: false,
            rwt: None,
        }
    }
}

/// The ProtocolSelect parameter byte: transmit rate in bits 7-6, receive
/// rate in bits 5-4, CRC in bit 0.
pub open spec fn param_byte(tx: DataRate, rx: DataRate, crc: bool) -> u8 {
    (data_rate_bits(tx) * 64 + data_rate_bits(rx) * 16 + bit_of(crc)) as u8
}

impl Parameters {
    pub closed spec fn tx_spec(self) -> DataRate {
        self.tx_data_rate
    }

    pub closed spec fn rx_spec(self) -> DataRate {
        self.rx_data_rate
    }

    pub closed spec fn with_crc_spec(self) -> bool {
        self.with_crc
    }

    pub closed spec fn rwt_spec(self) -> Option<RWT> {
        self.rwt
    }

    pub fn tx_data_rate(self, tx_data_rate: DataRate) -> (r: Self)
        ensures
            r.tx_spec() == tx_data_rate,
            r.rx_spec() == self.rx_spec(),
            r.with_crc_spec() == self.with_crc_spec(),
            r.rwt_spec() == self.rwt_spec(),
    {
        Self { tx_data_rate, ..self }
    }

    pub fn rx_data_rate(self, rx_data_rate: DataRate) -> (r: Self)
        ensures
            r.tx_spec() == self.tx_spec(),
            r.rx_spec() == rx_data_rate,
            r.with_crc_spec() == self.with_crc_spec(),
            r.rwt_spec() == self.rwt_spec(),
    {
        Self { rx_data_rate, ..self }
    }

    pub fn with_crc(self) -> (r: Self)
        ensures
            r.tx_spec() == self.tx_spec(),
            r.rx_spec() == self.rx_spec(),
            r.with_crc_spec(),
            r.rwt_spec() == self.rwt_spec(),
    {
        Self { with_crc: true, ..self }
    }

    pub fn rwt(self, rwt: RWT) -> (r: Self)
        ensures
            r.tx_spec() == self.tx_spec(),
            r.rx_spec() == self.rx_spec(),
            r.with_crc_spec() == self.with_crc_spec(),
            r.rwt_spec() == Some(rwt),
    {
        Self { rwt: Some(rwt), ..self }
    }
}

impl Parameters {
    /// The eight ProtocolSelect parameter bytes (unused ones zero) and how
    /// many of them are sent.
    pub open spec fn select_data(self) -> (Seq<u8>, usize) {
        let b = param_byte(self.tx_spec(), self.rx_spec(), self.with_crc_spec());
        match self.rwt_spec() {
            Some(w) => (seq![b, 0x10u8, w.pp_spec(), w.mm_spec(), 0u8, 0u8, 0u8, 0u8], 4),
            None => (seq![b, 0x10u8, 0u8, 0u8, 0u8, 0u8, 0u8, 0u8], 2),
        }
    }

    /// The frame timeout the parameters configure, in whole microseconds,
    /// if any.
    pub open spec fn frame_timeout_us(self) -> Option<u64> {
        match self.rwt_spec() {
            Some(w) => Some(cycles_to_us(w.cycles_spec()) as u64),
            None => None,
        }
    }
}

impl ProtocolParams for Parameters {
    open spec fn data_spec(&self) -> (Seq<u8>, usize) {
        self.select_data()
    }

    open spec fn timeout_spec(&self) -> Option<u64> {
        self.frame_timeout_us()
    }

    fn data(self) -> (r: ([u8; 8], usize)) {
        let crc: u8 = if self.with_crc { 1 } else { 0 };
        let param_byte = self.tx_data_rate.bits() * 64 + self.rx_data_rate.bits() * 16 + crc;
        let r = match self.rwt {
            Some(rwt) => ([param_byte, 0x10, rwt.pp, rwt.mm, 0, 0, 0, 0], 4),
            None => ([param_byte, 0x10, 0, 0, 0, 0, 0, 0], 2),
        };
        assert(r.0@ =~= self.data_spec().0);
        r
    }

    fn timeout_us(&self) -> (r: Option<u64>) {
        match self.rwt {
            Some(rwt) => Some(us_of_cycles(rwt.carrier_cycles())),
            None => None,
        }
    }
}

/// The ProtocolSelect parameters of a FeliCa reader (datasheet Table 14):
/// the first byte holds the transmit data rate in bits 7-6, the receive
/// data rate in bits 5-4 (106, 212 and 424 kbps as 0 to 2) and the CRC request
/// in bit 0, bits 3-1 clear; the second byte is 0x10; with a response
/// waiting time its two values follow and four bytes are sent, otherwise
/// two.
pub proof fn lemma_felica_parameter_bytes(p: Parameters)
    ensures
        p.data_spec().0.len() == 8,
        p.tx_spec() == DataRate::Kbps106 ==> p.data_spec().0[0] / 64 == 0,
        p.tx_spec() == DataRate::Kbps212 ==> p.data_spec().0[0] / 64 == 1,
        p.tx_spec() == DataRate::Kbps424 ==> p.data_spec().0[0] / 64 == 2,
        p.rx_spec() == DataRate::Kbps106 ==> p.data_spec().0[0] / 16 % 4 == 0,
        p.rx_spec() == DataRate::Kbps212 ==> p.data_spec().0[0] / 16 % 4 == 1,
        p.rx_spec() == DataRate::Kbps424 ==> p.data_spec().0[0] / 16 % 4 == 2,
        p.data_spec().0[0] / 2 % 8 == 0,
        (p.data_spec().0[0] % 2 == 1) == p.with_crc_spec(),
        p.data_spec().0[1] == 0x10,
        p.rwt_spec() is None ==> p.data_spec().1 == 2,
        p.rwt_spec() matches Some(w) ==> p.data_spec().1 == 4 && p.data_spec().0[2] == w.pp_spec()
            && p.data_spec().0[3] == w.mm_spec(),
{
}

} // verus!
