//! ISO/IEC 15693: reader parameters and the flag byte of its frames.
use vstd::prelude::*;

pub mod reader;

verus! {

/// Reception flags, the byte that follows a frame received in ISO/IEC
/// 15693 (datasheet Table 17): bit 1 reports a CRC error, bit 0 a
/// collision.
#[derive(Debug, Copy, Clone, PartialEq, Eq, Structural)]
pub struct ReceptionFlags {
    crc_error: bool,
    collision_detected: bool,
}

impl ReceptionFlags {
    pub closed spec fn crc_error_spec(self) -> bool {
        self.crc_error
    }

    pub closed spec fn collision_detected_spec(self) -> bool {
        self.collision_detected
    }
}

impl TryFrom<u8> for ReceptionFlags {
    type Error = ();

    fn try_from(value: u8) -> (r: core::result::Result<Self, ()>)
        ensures
            r is Ok <==> value < 4,
            r matches Ok(f) ==> f.crc_error_spec() == (value / 2 == 1) && f.collision_detected_spec()
                == (value % 2 == 1),
    {
        let crc_error = (value / 2) % 2 == 1;
        let collision_detected = value % 2 == 1;
        if value < 4 {
            Ok(ReceptionFlags { crc_error, collision_detected })
        } else {
            Err(())
        }
    }
}

impl vstd::std_specs::convert::TryFromSpecImpl<u8> for ReceptionFlags {
    open spec fn obeys_try_from_spec() -> bool {
        true
    }

    closed spec fn try_from_spec(v: u8) -> core::result::Result<Self, ()> {
        if v < 4 {
            Ok(ReceptionFlags { crc_error: v / 2 == 1, collision_detected: v % 2 == 1 })
        } else {
            Err(())
        }
    }
}

impl From<ReceptionFlags> for u8 {
    fn from(lbf: ReceptionFlags) -> (r: Self)
        ensures
            r == (if lbf.crc_error_spec() { 2u8 } else { 0u8 }) + (if lbf.collision_detected_spec() {
                1u8
            } else {
                0u8
            }),
    {
        let c: u8 = if lbf.crc_error { 2 } else { 0 };
        let k: u8 = if lbf.collision_detected { 1 } else { 0 };
        c + k
    }
}

impl vstd::std_specs::convert::FromSpecImpl<ReceptionFlags> for u8 {
    open spec fn obeys_from_spec() -> bool {
        true
    }

    open spec fn from_spec(v: ReceptionFlags) -> Self {
        ((if v.crc_error_spec() { 2u8 } else { 0u8 }) + (if v.collision_detected_spec() {
            1u8
        } else {
            0u8
        })) as u8
    }
}

} // verus!
