//! ISO/IEC 14443 Type B: reader parameters and the flag byte of its frames.
use vstd::prelude::*;

pub mod reader;

verus! {

/// Reception flags, the byte that follows a frame received in ISO/IEC
/// 14443-B (datasheet Table 17): bit 1 reports a CRC error.
#[derive(Debug, Copy, Clone, PartialEq, Eq, Structural)]
pub struct ReceptionFlags {
    crc_error: bool,
}

impl ReceptionFlags {
    pub closed spec fn crc_error_spec(self) -> bool {
        self.crc_error
    }
}

/// Accepted flag bytes: every bit but bit 1 clear.
pub open spec fn reception_byte_ok(value: u8) -> bool {
    value == 0 || value == 2
}

impl TryFrom<u8> for ReceptionFlags {
    type Error = ();

    fn try_from(value: u8) -> (r: core::result::Result<Self, ()>)
        ensures
            r is Ok <==> reception_byte_ok(value),
            r matches Ok(f) ==> f.crc_error_spec() == (value == 2),
    {
        let crc_error = (value / 2) % 2 == 1;
        if value == 0 || value == 2 {
            Ok(ReceptionFlags { crc_error })
        } else {
            Err(())
        }
    }
}

impl vstd::std_specs::convert::TryFromSpecImpl<u8> for ReceptionFlags {
    open spec fn obeys_try_from_spec() -> bool {
        true
    }

    closed spec fn try_from_spec(v: u8) -> core::result::Result<Self, ()> {
        if v == 0 || v == 2 {
            Ok(ReceptionFlags { crc_error: v == 2 })
        } else {
            Err(())
        }
    }
}

impl From<ReceptionFlags> for u8 {
    fn from(lbf: ReceptionFlags) -> (r: Self)
        ensures
            r == (if lbf.crc_error_spec() { 2u8 } else { 0u8 }),
    {
        if lbf.crc_error {
            2
        } else {
            0
        }
    }
}

impl vstd::std_specs::convert::FromSpecImpl<ReceptionFlags> for u8 {
    open spec fn obeys_from_spec() -> bool {
        true
    }

    open spec fn from_spec(v: ReceptionFlags) -> Self {
        if v.crc_error_spec() {
            2u8
        } else {
            0u8
        }
    }
}

} // verus!
