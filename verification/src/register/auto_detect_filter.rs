use super::Register;
use vstd::prelude::*;

verus! {

/// AutoDetect synchronisation filter for FeliCa (write-only).
#[derive(Debug)]
pub(crate) struct AutoDetectFilter;

impl Register for AutoDetectFilter {
    open spec fn readable(&self) -> bool {
        false
    }

    open spec fn writable(&self) -> bool {
        true
    }

    open spec fn read_addr_spec(&self) -> u8 {
        0
    }

    open spec fn write_addr_spec(&self) -> u8 {
        0x0A
    }

    open spec fn index_confirmation_spec(&self) -> u8 {
        0xA1
    }

    open spec fn has_index_spec(&self) -> bool {
        false
    }

    open spec fn value_spec(&self) -> u8 {
        0x02
    }

    fn read_addr(&self) -> (r: u8) {
        0
    }

    fn write_addr(&self) -> (r: u8) {
        0x0A
    }

    fn index_confirmation(&self) -> (r: u8) {
        0xA1
    }

    fn has_index(&self) -> (r: bool) {
        false
    }

    fn value(&self) -> (r: u8) {
        0x02
    }
}

} // verus!
