use super::Register;
use vstd::prelude::*;

verus! {

/// Wake-up event register (read-only).
#[derive(Debug, Copy, Clone)]
pub(crate) struct Wakeup;

impl Register for Wakeup {
    open spec fn readable(&self) -> bool {
        true
    }

    open spec fn writable(&self) -> bool {
        false
    }

    open spec fn read_addr_spec(&self) -> u8 {
        0x62
    }

    open spec fn write_addr_spec(&self) -> u8 {
        0
    }

    open spec fn index_confirmation_spec(&self) -> u8 {
        0
    }

    open spec fn has_index_spec(&self) -> bool {
        false
    }

    open spec fn value_spec(&self) -> u8 {
        0
    }

    fn read_addr(&self) -> (r: u8) {
        0x62
    }

    fn write_addr(&self) -> (r: u8) {
        0
    }

    fn index_confirmation(&self) -> (r: u8) {
        0
    }

    fn has_index(&self) -> (r: bool) {
        false
    }

    fn value(&self) -> (r: u8) {
        0
    }
}

} // verus!
