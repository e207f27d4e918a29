//! ISO/IEC 14443-A reader parameters.
use super::super::{
    cycles_to_us, frame_timeout_cycles, timeout_cycles, us_of_cycles, ProtocolParams,
};
use vstd::prelude::*;

verus! {

/// Data rate of one direction.
#[derive(Debug, Copy, Clone, PartialEq, Eq, Structural)]
pub enum DataRate {
    Kbps106,
    Kbps212,
    Kbps424,
}

impl Default for DataRate {
    fn default() -> (r: Self)
        ensures
            r == DataRate::Kbps106,
    {
        DataRate::Kbps106
    }
}

/// The two-bit field of each data rate.
pub open spec fn data_rate_bits(d: DataRate) -> u8 {
    match d {
        DataRate::Kbps106 => 0b00,
        DataRate::Kbps212 => 0b01,
        DataRate::Kbps424 => 0b10,
    }
}

impl DataRate {
    /// The two-bit field of this data rate.
    pub fn bits(self) -> (r: u8)
        ensures
            r == data_rate_bits(self),
    {
        match self {
            DataRate::Kbps106 => 0b00,
            DataRate::Kbps212 => 0b01,
            DataRate::Kbps424 => 0b10,
        }
    }
}

/// Frame delay time: `2^pp * (mm + 1) * (dd + 128) * 32` carrier periods,
/// with `pp <= 15` and `dd <= 127`.
#[derive(Debug, Copy, Clone, PartialEq, Eq, Structural)]
pub struct FDT {
    pp: u8,
    mm: u8,
    dd: u8,
}

impl FDT {
    pub closed spec fn pp_spec(self) -> u8 {
        self.pp
    }

    pub closed spec fn mm_spec(self) -> u8 {
        self.mm
    }

    pub closed spec fn dd_spec(self) -> u8 {
        self.dd
    }

    #[verifier::type_invariant]
    spec fn fdt_in_range(self) -> bool {
        self.pp <= 15 && self.dd <= 127
    }

    /// The delay in carrier periods.
    pub open spec fn cycles_spec(self) -> int {
        timeout_cycles(self.pp_spec(), self.mm_spec(), (self.dd_spec() + 128) * 32)
    }

    /// `None` when `pp > 15` or `dd > 127`.
    pub fn new(pp: u8, mm: u8, dd: u8) -> (r: Option<Self>)
        ensures
            r is Some <==> (pp <= 15 && dd <= 127),
            r matches Some(f) ==> f.pp_spec() == pp && f.mm_spec() == mm && f.dd_spec() == dd,
    {
        if pp > 15 {
            return None;
        }
        if dd > 127 {
            return None;
        }
        Some(Self { pp, mm, dd })
    }

    /// The delay in 13.56 MHz carrier periods.
    pub fn carrier_cycles(self) -> (r: u64)
        ensures
            r == self.cycles_spec(),
            r <= 0x8000 * 256 * 0x100_0000,
    {
        proof {
            use_type_invariant(&self);
        }
        frame_timeout_cycles(self.pp, self.mm, (self.dd as u64 + 128) * 32)
    }
}

impl Default for FDT {
    fn default() -> (r: Self)
        ensures
            r.pp_spec() == 0 && r.mm_spec() == 0 && r.dd_spec() == 0,
    {
        FDT { pp: 0, mm: 0, dd: 0 }
    }
}

/// Parameters of ProtocolSelect for an ISO/IEC 14443-A reader.
#[derive(Debug)]
pub struct Parameters {
    tx_data_rate: DataRate,
    rx_data_rate: DataRate,
    fdt: Option<FDT>,
}

impl Default for Parameters {
    fn default() -> (r: Self)
        ensures
            r.tx_spec() == DataRate::Kbps106,
            r.rx_spec() == DataRate::Kbps106,
            r.fdt_spec() is None,
    {
        Parameters { tx_data_rate: DataRate::Kbps106, rx_data_rate: DataRate::Kbps106, fdt: None }
    }
}

/// The ProtocolSelect parameter byte: transmit rate in bits 7-6, receive
/// rate in bits 5-4.
pub open spec fn rates_byte(tx: DataRate, rx: DataRate) -> u8 {
    (data_rate_bits(tx) * 64 + data_rate_bits(rx) * 16) as u8
}

impl Parameters {
    pub closed spec fn tx_spec(self) -> DataRate {
        self.tx_data_rate
    }

    pub closed spec fn rx_spec(self) -> DataRate {
        self.rx_data_rate
    }

    pub closed spec fn fdt_spec(self) -> Option<FDT> {
        self.fdt
    }

    pub fn tx_data_rate(self, tx_data_rate: DataRate) -> (r: Self)
        ensures
            r.tx_spec() == tx_data_rate,
            r.rx_spec() == self.rx_spec(),
            r.fdt_spec() == self.fdt_spec(),
    {
        Self { tx_data_rate, ..self }
    }

    pub fn rx_data_rate(self, rx_data_rate: DataRate) -> (r: Self)
        ensures
            r.tx_spec() == self.tx_spec(),
            r.rx_spec() == rx_data_rate,
            r.fdt_spec() == self.fdt_spec(),
    {
        Self { rx_data_rate, ..self }
    }

    pub fn fdt(self, fdt: FDT) -> (r: Self)
        ensures
            r.tx_spec() == self.tx_spec(),
            r.rx_spec() == self.rx_spec(),
            r.fdt_spec() == Some(fdt),
    {
        Self { fdt: Some(fdt), ..self }
    }
}

impl Parameters {
    /// The eight ProtocolSelect parameter bytes (unused ones zero) and how
    /// many of them are sent.
    pub open spec fn select_data(self) -> (Seq<u8>, usize) {
        let b = rates_byte(self.tx_spec(), self.rx_spec());
        match self.fdt_spec() {
            Some(f) => (seq![b, f.pp_spec(), f.mm_spec(), f.dd_spec(), 0u8, 0u8, 0u8, 0u8], 4),
            None => (seq![b, 0u8, 0u8, 0u8, 0u8, 0u8, 0u8, 0u8], 1),
        }
    }

    /// The frame timeout the parameters configure, in whole microseconds,
    /// if any.
    pub open spec fn frame_timeout_us(self) -> Option<u64> {
        match self.fdt_spec() {
            Some(f) => Some(cycles_to_us(f.cycles_spec()) as u64),
            None => None,
        }
    }
}

impl ProtocolParams for Parameters {
    open spec fn data_spec(&self) -> (Seq<u8>, usize) {
        self.select_data()
    }

    open spec fn timeout_spec(&self) -> Option<u64> {
        self.frame_timeout_us()
    }

    fn data(self) -> (r: ([u8; 8], usize)) {
        let param_byte = self.tx_data_rate.bits() * 64 + self.rx_data_rate.bits() * 16;
        let r = match self.fdt {
            Some(fdt) => ([param_byte, fdt.pp, fdt.mm, fdt.dd, 0, 0, 0, 0], 4),
            None => ([param_byte, 0, 0, 0, 0, 0, 0, 0], 1),
        };
        assert(r.0@ =~= self.data_spec().0);
        r
    }

    fn timeout_us(&self) -> (r: Option<u64>) {
        match self.fdt {
            Some(fdt) => Some(us_of_cycles(fdt.carrier_cycles())),
            None => None,
        }
    }
}

/// The first ProtocolSelect parameter byte of an ISO/IEC 14443-A reader
/// (datasheet Table 12) holds the transmit data rate in bits 7-6 and the
/// receive data rate in bits 5-4, each as 0 for 106, 1 for 212 and 2 for
/// 424 kbps; bits 3-0 are clear. With a frame delay time its three values
/// follow and four bytes are sent, otherwise one.
pub proof fn lemma_iso14443a_parameter_bytes(p: Parameters)
    ensures
        p.data_spec().0.len() == 8,
        p.tx_spec() == DataRate::Kbps106 ==> p.data_spec().0[0] / 64 == 0,
        p.tx_spec() == DataRate::Kbps212 ==> p.data_spec().0[0] / 64 == 1,
        p.tx_spec() == DataRate::Kbps424 ==> p.data_spec().0[0] / 64 == 2,
        p.rx_spec() == DataRate::Kbps106 ==> p.data_spec().0[0] / 16 % 4 == 0,
        p.rx_spec() == DataRate::Kbps212 ==> p.data_spec().0[0] / 16 % 4 == 1,
        p.rx_spec() == DataRate::Kbps424 ==> p.data_spec().0[0] / 16 % 4 == 2,
        p.data_spec().0[0] % 16 == 0,
        p.fdt_spec() is None ==> p.data_spec().1 == 1,
        p.fdt_spec() matches Some(f) ==> p.data_spec().1 == 4 && p.data_spec().0[1] == f.pp_spec()
            && p.data_spec().0[2] == f.mm_spec() && p.data_spec().0[3] == f.dd_spec(),
{
}

} // verus!
