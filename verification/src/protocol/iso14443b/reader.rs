//! ISO/IEC 14443-B reader parameters.
use super::super::{
    cycles_to_us, frame_timeout_cycles, timeout_cycles, us_of_cycles, ProtocolParams,
};
use crate::command::bit_of;
use vstd::prelude::*;

verus! {

/// Data rate of one direction.
#[derive(Debug, Copy, Clone, PartialEq, Eq, Structural)]
pub enum DataRate {
    Kbps106,
    Kbps212,
    Kbps424,
    Kbps828,
}

impl Default for DataRate {
    fn default() -> (r: Self)
        ensures
            r == DataRate::Kbps106,
    {
        DataRate::Kbps106
    }
}

/// The two-bit field of each data rate.
pub open spec fn data_rate_bits(d: DataRate) -> u8 {
    match d {
        DataRate::Kbps106 => 0b00,
        DataRate::Kbps212 => 0b01,
        DataRate::Kbps424 => 0b10,
        DataRate::Kbps828 => 0b11,
    }
}

impl DataRate {
    /// The two-bit field of this data rate.
    pub fn bits(self) -> (r: u8)
        ensures
            r == data_rate_bits(self),
    {
        match self {
            DataRate::Kbps106 => 0b00,
            DataRate::Kbps212 => 0b01,
            DataRate::Kbps424 => 0b10,
            DataRate::Kbps828 => 0b11,
        }
    }
}

/// Frame waiting time: `2^pp * (mm + 1) * (dd + 128) * 32` carrier periods,
/// with `pp <= 15` and `dd <= 127`.
#[derive(Debug, Copy, Clone, PartialEq, Eq, Structural)]
pub struct FWT {
    pp: u8,
    mm: u8,
    dd: u8,
}

impl FWT {
    #[verifier::type_invariant]
    spec fn fwt_in_range(self) -> bool {
        self.pp <= 15 && self.dd <= 127
    }

    pub closed spec fn pp_spec(self) -> u8 {
        self.pp
    }

    pub closed spec fn mm_spec(self) -> u8 {
        self.mm
    }

    pub closed spec fn dd_spec(self) -> u8 {
        self.dd
    }

    /// The waiting time in carrier periods.
    pub open spec fn cycles_spec(self) -> int {
        timeout_cycles(self.pp_spec(), self.mm_spec(), (self.dd_spec() + 128) * 32)
    }

    /// `None` when `pp > 15` or `dd > 127`.
    pub fn new(pp: u8, mm: u8, dd: u8) -> (r: Option<Self>)
        ensures
            r is Some <==> (pp <= 15 && dd <= 127),
            r matches Some(f) ==> f.pp_spec() == pp && f.mm_spec() == mm && f.dd_spec() == dd,
    {
        if pp > 15 {
            return None;
        }
        if dd > 127 {
            return None;
        }
        Some(Self { pp, mm, dd })
    }

    /// The waiting time in 13.56 MHz carrier periods.
    pub fn carrier_cycles(self) -> (r: u64)
        ensures
            r == self.cycles_spec(),
            r <= 0x8000 * 256 * 0x100_0000,
    {
        proof {
            use_type_invariant(&self);
        }
        frame_timeout_cycles(self.pp, self.mm, (self.dd as u64 + 128) * 32)
    }
}

impl Default for FWT {
    fn default() -> (r: Self)
        ensures
            r.pp_spec() == 0 && r.mm_spec() == 0 && r.dd_spec() == 0,
    {
        FWT { pp: 0, mm: 0, dd: 0 }
    }
}

/// Parameters of ProtocolSelect for an ISO/IEC 14443-B reader.
#[derive(Debug)]
pub struct Parameters {
    tx_data_rate: DataRate,
    rx_data_rate: DataRate,
    with_crc: bool,
    fwt: Option<FWT>,
    tttt: u16,
    yy: u8,
    zz: u8,
}

impl Default for Parameters {
    fn default() -> (r: Self)
        ensures
            r.tx_spec() == DataRate::Kbps106,
            r.rx_spec() == DataRate::Kbps106,
            !r.with_crc_spec(),
            r.fwt_spec() is None,
            r.tttt_spec() == 1023,
            r.yy_spec() == 0,
            r.zz_spec() == 26,
    {
        Self {
            tx_data_rate: DataRate::Kbps106,
            rx_data_rate: DataRate::Kbps106,
            with_crc: false,
            fwt: None,
            tttt: 1023,
            yy: 0,
            zz: 26,
        }
    }
}

/// The ProtocolSelect parameter byte: transmit rate in bits 7-6, receive
/// rate in bits 5-4, CRC in bit 0.
pub open spec fn param_byte(tx: DataRate, rx: DataRate, crc: bool) -> u8 {
    (data_rate_bits(tx) * 64 + data_rate_bits(rx) * 16 + bit_of(crc)) as u8
}

impl Parameters {
    pub closed spec fn tx_spec(self) -> DataRate {
        self.tx_data_rate
    }

    pub closed spec fn rx_spec(self) -> DataRate {
        self.rx_data_rate
    }

    pub closed spec fn with_crc_spec(self) -> bool {
        self.with_crc
    }

    pub closed spec fn fwt_spec(self) -> Option<FWT> {
        self.fwt
    }

    pub closed spec fn tttt_spec(self) -> u16 {
        self.tttt
    }

    pub closed spec fn yy_spec(self) -> u8 {
        self.yy
    }

    pub closed spec fn zz_spec(self) -> u8 {
        self.zz
    }

    /// Every field of `self` but those `r` is allowed to change.
    pub open spec fn same_but(self, r: Self, tx: bool, rx: bool, crc: bool, fwt: bool, t: bool, y: bool, z: bool) -> bool {
        &&& (tx || r.tx_spec() == self.tx_spec())
        &&& (rx || r.rx_spec() == self.rx_spec())
        &&& (crc || r.with_crc_spec() == self.with_crc_spec())
        &&& (fwt || r.fwt_spec() == self.fwt_spec())
        &&& (t || r.tttt_spec() == self.tttt_spec())
        &&& (y || r.yy_spec() == self.yy_spec())
        &&& (z || r.zz_spec() == self.zz_spec())
    }

    pub fn tx_data_rate(self, tx_data_rate: DataRate) -> (r: Self)
        ensures
            r.tx_spec() == tx_data_rate,
            self.same_but(r, true, false, false, false, false, false, false),
    {
        Self { tx_data_rate, ..self }
    }

    pub fn rx_data_rate(self, rx_data_rate: DataRate) -> (r: Self)
        ensures
            r.rx_spec() == rx_data_rate,
            self.same_but(r, false, true, false, false, false, false, false),
    {
        Self { rx_data_rate, ..self }
    }

    pub fn with_crc(self) -> (r: Self)
        ensures
            r.with_crc_spec(),
            self.same_but(r, false, false, true, false, false, false, false),
    {
        Self { with_crc: true, ..self }
    }

    pub fn fwt(self, fwt: FWT) -> (r: Self)
        ensures
            r.fwt_spec() == Some(fwt),
            self.same_but(r, false, false, false, true, false, false, false),
    {
        Self { fwt: Some(fwt), ..self }
    }

    pub fn tttt(self, tttt: u16) -> (r: Self)
        ensures
            r.tttt_spec() == tttt,
            self.same_but(r, false, false, false, false, true, false, false),
    {
        Self { tttt, ..self }
    }

    pub fn yy(self, yy: u8) -> (r: Self)
        ensures
            r.yy_spec() == yy,
            self.same_but(r, false, false, false, false, false, true, false),
    {
        Self { yy, ..self }
    }

    pub fn zz(self, zz: u8) -> (r: Self)
        ensures
            r.zz_spec() == zz,
            self.same_but(r, false, false, false, false, false, false, true),
    {
        Self { zz, ..self }
    }
}

impl Parameters {
    /// The eight ProtocolSelect parameter bytes (unused ones zero) and how
    /// many of them are sent.
    pub open spec fn select_data(self) -> (Seq<u8>, usize) {
        let b = param_byte(self.tx_spec(), self.rx_spec(), self.with_crc_spec());
        match self.fwt_spec() {
            Some(f) => (
                seq![
                    b,
                    f.pp_spec(),
                    f.mm_spec(),
                    f.dd_spec(),
                    (self.tttt_spec() / 256) as u8,
                    (self.tttt_spec() % 256) as u8,
                    self.yy_spec(),
                    self.zz_spec(),
                ],
                8,
            ),
            None => (seq![b, 0u8, 0u8, 0u8, 0u8, 0u8, 0u8, 0u8], 1),
        }
    }

    /// The frame timeout the parameters configure, in whole microseconds,
    /// if any.
    pub open spec fn frame_timeout_us(self) -> Option<u64> {
        match self.fwt_spec() {
            Some(f) => Some(cycles_to_us(f.cycles_spec()) as u64),
            None => None,
        }
    }
}

impl ProtocolParams for Parameters {
    open spec fn data_spec(&self) -> (Seq<u8>, usize) {
        self.select_data()
    }

    open spec fn timeout_spec(&self) -> Option<u64> {
        self.frame_timeout_us()
    }

    fn data(self) -> (r: ([u8; 8], usize)) {
        let crc: u8 = if self.with_crc { 1 } else { 0 };
        let param_byte = self.tx_data_rate.bits() * 64 + self.rx_data_rate.bits() * 16 + crc;
        let r = match self.fwt {
            Some(fwt) => (
                [
                    param_byte,
                    fwt.pp,
                    fwt.mm,
                    fwt.dd,
                    (self.tttt / 256) as u8,
                    (self.tttt % 256) as u8,
                    self.yy,
                    self.zz,
                ],
                8,
            ),
            None => ([param_byte, 0, 0, 0, 0, 0, 0, 0], 1),
        };
        assert(r.0@ =~= self.data_spec().0);
        r
    }

    fn timeout_us(&self) -> (r: Option<u64>) {
        match self.fwt {
            Some(fwt) => Some(us_of_cycles(fwt.carrier_cycles())),
            None => None,
        }
    }
}

/// The ProtocolSelect parameters of an ISO/IEC 14443-B reader (datasheet
/// Table 13): the first byte holds the transmit data rate in bits 7-6, the
/// receive data rate in bits 5-4 (106, 212, 424, 848 kbps as 0 to 3) and
/// the CRC request in bit 0, bits 3-1 clear. With a frame waiting time its
/// three values follow, then TTTT most significant byte first, YY and ZZ,
/// and eight bytes are sent; otherwise one.
pub proof fn lemma_iso14443b_parameter_bytes(p: Parameters)
    ensures
        p.data_spec().0.len() == 8,
        p.tx_spec() == DataRate::Kbps106 ==> p.data_spec().0[0] / 64 == 0,
        p.tx_spec() == DataRate::Kbps212 ==> p.data_spec().0[0] / 64 == 1,
        p.tx_spec() == DataRate::Kbps424 ==> p.data_spec().0[0] / 64 == 2,
        p.tx_spec() == DataRate::Kbps828 ==> p.data_spec().0[0] / 64 == 3,
        p.rx_spec() == DataRate::Kbps106 ==> p.data_spec().0[0] / 16 % 4 == 0,
        p.rx_spec() == DataRate::Kbps212 ==> p.data_spec().0[0] / 16 % 4 == 1,
        p.rx_spec() == DataRate::Kbps424 ==> p.data_spec().0[0] / 16 % 4 == 2,
        p.rx_spec() == DataRate::Kbps828 ==> p.data_spec().0[0] / 16 % 4 == 3,
        p.data_spec().0[0] / 2 % 8 == 0,
        (p.data_spec().0[0] % 2 == 1) == p.with_crc_spec(),
        p.fwt_spec() is None ==> p.data_spec().1 == 1,
        p.fwt_spec() matches Some(f) ==> {
            &&& p.data_spec().1 == 8
            &&& p.data_spec().0[1] == f.pp_spec()
            &&& p.data_spec().0[2] == f.mm_spec()
            &&& p.data_spec().0[3] == f.dd_spec()
            &&& p.data_spec().0[4] * 256 + p.data_spec().0[5] == p.tttt_spec()
            &&& p.data_spec().0[6] == p.yy_spec()
            &&& p.data_spec().0[7] == p.zz_spec()
        },
{
}

} // verus!
