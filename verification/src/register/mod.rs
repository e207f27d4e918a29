//! Registers of the ST25R95 reachable through the RdReg and WrReg commands.
use vstd::prelude::*;

pub mod acc_a;
pub mod arc_b;
pub mod auto_detect_filter;
pub mod timer_window;
pub mod wakeup;

verus! {

/// Access to one register through the RdReg and WrReg commands.
///
/// Indexed registers (ARC_B and ACC_A share one address) are selected by
/// writing an index first; the others are addressed directly. A register
/// that can only be written has no read address, and one that can only be
/// read has no write address, index or value.
pub(crate) trait Register {
    /// Whether the register can be read.
    spec fn readable(&self) -> bool;

    /// Whether the register can be written.
    spec fn writable(&self) -> bool;

    spec fn read_addr_spec(&self) -> u8;

    spec fn write_addr_spec(&self) -> u8;

    spec fn index_confirmation_spec(&self) -> u8;

    spec fn has_index_spec(&self) -> bool;

    spec fn value_spec(&self) -> u8;

    /// Address used by RdReg.
    fn read_addr(&self) -> (r: u8)
        requires
            self.readable(),
        ensures
            r == self.read_addr_spec(),
    ;

    /// Address used by WrReg.
    fn write_addr(&self) -> (r: u8)
        requires
            self.writable() || self.has_index_spec(),
        ensures
            r == self.write_addr_spec(),
    ;

    /// Index written before an indexed register is accessed.
    fn index_confirmation(&self) -> (r: u8)
        requires
            self.writable() || self.has_index_spec(),
        ensures
            r == self.index_confirmation_spec(),
    ;

    /// Whether the register is selected by an index.
    fn has_index(&self) -> (r: bool)
        ensures
            r == self.has_index_spec(),
    ;

    /// The byte written to the register.
    fn value(&self) -> (r: u8)
        requires
            self.writable(),
        ensures
            r == self.value_spec(),
    ;
}

/// The register map (datasheet §5.9–5.11): ARC_B and ACC_A are written at
/// 0x68 after their index (0x01 and 0x04) and read at 0x69; the Timer
/// Window is written at 0x3A with the confirmation 0x04; the AutoDetect
/// filter is written at 0x0A with the value 0x02 and the confirmation 0xA1;
/// the Wakeup register is read at 0x62.
pub(crate) proof fn lemma_register_map(
    arc_b: arc_b::ArcB,
    acc_a: acc_a::AccA,
    tw: timer_window::TimerWindow,
    adf: auto_detect_filter::AutoDetectFilter,
    wu: wakeup::Wakeup,
)
    ensures
        arc_b.has_index_spec() && arc_b.write_addr_spec() == 0x68 && arc_b.read_addr_spec() == 0x69
            && arc_b.index_confirmation_spec() == 0x01,
        acc_a.has_index_spec() && acc_a.write_addr_spec() == 0x68 && acc_a.read_addr_spec() == 0x69
            && acc_a.index_confirmation_spec() == 0x04,
        !tw.has_index_spec() && tw.write_addr_spec() == 0x3A && tw.index_confirmation_spec() == 0x04
            && tw.value_spec() == tw.0,
        !adf.has_index_spec() && adf.write_addr_spec() == 0x0A && adf.value_spec() == 0x02
            && adf.index_confirmation_spec() == 0xA1,
        wu.readable() && !wu.writable() && wu.read_addr_spec() == 0x62,
{
}

} // verus!
