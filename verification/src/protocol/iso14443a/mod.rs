//! ISO/IEC 14443 Type A: reader and card emulation parameters, and the
//! flag bytes of its frames.
use crate::command::bit_of;
use vstd::prelude::*;

pub mod card_emulation;
pub mod reader;

verus! {

/// A single-size UID of the anti-collision filter.
pub type UID = [u8; 4];

/// Answer to request, type A.
pub type ATQA = u16;

/// Select acknowledge.
pub type SAK = u8;

/// Transmission flags, the last byte of a SendRecv command in ISO/IEC
/// 14443-A (datasheet Table 16): bit 7 Topaz format, bit 6 split frame,
/// bit 5 append CRC, bit 4 parity framing, bits 3-0 significant bits in the
/// last byte.
#[derive(Debug, Copy, Clone, PartialEq, Eq, Structural)]
pub struct TransmissionFlags {
    topaz: bool,
    split_frame: bool,
    append_crc: bool,
    parity_frame_mode: bool,
    number_of_significant_bits_in_last_byte: u8,
}

impl TransmissionFlags {
    #[verifier::type_invariant]
    spec fn bits_in_range(self) -> bool {
        self.number_of_significant_bits_in_last_byte < 16
    }

    pub closed spec fn topaz_spec(self) -> bool {
        self.topaz
    }

    pub closed spec fn split_frame_spec(self) -> bool {
        self.split_frame
    }

    pub closed spec fn append_crc_spec(self) -> bool {
        self.append_crc
    }

    pub closed spec fn parity_frame_mode_spec(self) -> bool {
        self.parity_frame_mode
    }

    pub closed spec fn significant_bits_spec(self) -> u8 {
        self.number_of_significant_bits_in_last_byte
    }

    /// The flags encoded by a byte.
    pub closed spec fn from_byte(value: u8) -> Self {
        TransmissionFlags {
            topaz: (value / 128) % 2 == 1,
            split_frame: (value / 64) % 2 == 1,
            append_crc: (value / 32) % 2 == 1,
            parity_frame_mode: (value / 16) % 2 == 1,
            number_of_significant_bits_in_last_byte: value % 16,
        }
    }

    /// What [`from_byte`](Self::from_byte) reads from each bit of a byte,
    /// and that flags are equal when every field is.
    pub proof fn lemma_from_byte(value: u8, a: Self, b: Self)
        ensures
            Self::from_byte(value).topaz_spec() == ((value / 128) % 2 == 1),
            Self::from_byte(value).split_frame_spec() == ((value / 64) % 2 == 1),
            Self::from_byte(value).append_crc_spec() == ((value / 32) % 2 == 1),
            Self::from_byte(value).parity_frame_mode_spec() == ((value / 16) % 2 == 1),
            Self::from_byte(value).significant_bits_spec() == value % 16,
            a.topaz_spec() == b.topaz_spec() && a.split_frame_spec() == b.split_frame_spec()
                && a.append_crc_spec() == b.append_crc_spec() && a.parity_frame_mode_spec()
                == b.parity_frame_mode_spec() && a.significant_bits_spec()
                == b.significant_bits_spec() ==> a == b,
    {
    }
}

/// The byte of a set of transmission flags.
pub open spec fn transmission_flags_byte(f: TransmissionFlags) -> u8 {
    (bit_of(f.topaz_spec()) * 128 + bit_of(f.split_frame_spec()) * 64 + bit_of(
        f.append_crc_spec(),
    ) * 32 + bit_of(f.parity_frame_mode_spec()) * 16 + f.significant_bits_spec()) as u8
}

impl From<u8> for TransmissionFlags {
    fn from(value: u8) -> (r: Self)
        ensures
            r == TransmissionFlags::from_byte(value),
            r.topaz_spec() == ((value / 128) % 2 == 1),
            r.split_frame_spec() == ((value / 64) % 2 == 1),
            r.append_crc_spec() == ((value / 32) % 2 == 1),
            r.parity_frame_mode_spec() == ((value / 16) % 2 == 1),
            r.significant_bits_spec() == value % 16,
    {
        Self {
            topaz: (value / 128) % 2 == 1,
            split_frame: (value / 64) % 2 == 1,
            append_crc: (value / 32) % 2 == 1,
            parity_frame_mode: (value / 16) % 2 == 1,
            number_of_significant_bits_in_last_byte: value % 16,
        }
    }
}

impl vstd::std_specs::convert::FromSpecImpl<u8> for TransmissionFlags {
    open spec fn obeys_from_spec() -> bool {
        true
    }

    open spec fn from_spec(v: u8) -> Self {
        TransmissionFlags::from_byte(v)
    }
}

impl From<TransmissionFlags> for u8 {
    fn from(value: TransmissionFlags) -> (r: Self)
        ensures
            r == transmission_flags_byte(value),
    {
        proof {
            use_type_invariant(&value);
        }
        let a: u8 = if value.topaz { 128 } else { 0 };
        let b: u8 = if value.split_frame { 64 } else { 0 };
        let c: u8 = if value.append_crc { 32 } else { 0 };
        let d: u8 = if value.parity_frame_mode { 16 } else { 0 };
        a + b + c + d + value.number_of_significant_bits_in_last_byte
    }
}

impl vstd::std_specs::convert::FromSpecImpl<TransmissionFlags> for u8 {
    open spec fn obeys_from_spec() -> bool {
        true
    }

    open spec fn from_spec(v: TransmissionFlags) -> Self {
        transmission_flags_byte(v)
    }
}

/// Decoding a transmission flag byte and encoding the flags again gives the
/// byte back.
pub proof fn lemma_transmission_flags_roundtrip(value: u8)
    ensures
        transmission_flags_byte(TransmissionFlags::from_byte(value)) == value,
{
    reveal(TransmissionFlags::from_byte);
    assert(((value / 128) % 2) * 128 + ((value / 64) % 2) * 64 + ((value / 32) % 2) * 32 + ((value
        / 16) % 2) * 16 + value % 16 == value) by (bit_vector);
}

/// Reception flags, the three bytes that follow a frame received in ISO/IEC
/// 14443-A (datasheet Table 17): collision, CRC and parity errors, the
/// number of significant bits in the first byte, and where a collision was
/// detected.
#[derive(Debug, Copy, Clone, PartialEq, Eq, Structural)]
pub struct ReceptionFlags {
    collision_detected: bool,
    crc_error: bool,
    parity_error: bool,
    number_of_significant_bits_in_first_byte: u8,
    /// Only valid when collision_detected is true
    index_of_the_first_byte_where_collision_was_detected: u8,
    /// Only valid when collision_detected is true
    index_of_the_first_bit_where_collision_was_detected: u8,
}

impl ReceptionFlags {
    #[verifier::type_invariant]
    spec fn nibbles_in_range(self) -> bool {
        self.number_of_significant_bits_in_first_byte < 16
            && self.index_of_the_first_bit_where_collision_was_detected < 16
    }

    pub closed spec fn collision_detected_spec(self) -> bool {
        self.collision_detected
    }

    pub closed spec fn crc_error_spec(self) -> bool {
        self.crc_error
    }

    pub closed spec fn parity_error_spec(self) -> bool {
        self.parity_error
    }

    pub closed spec fn significant_bits_spec(self) -> u8 {
        self.number_of_significant_bits_in_first_byte
    }

    pub closed spec fn collision_byte_spec(self) -> u8 {
        self.index_of_the_first_byte_where_collision_was_detected
    }

    pub closed spec fn collision_bit_spec(self) -> u8 {
        self.index_of_the_first_bit_where_collision_was_detected
    }

    /// When [`decode`](Self::decode) accepts three bytes, and what it reads
    /// from them.
    pub proof fn lemma_decode(data: Seq<u8>)
        requires
            data.len() == 3,
        ensures
            Self::decode(data) is Ok <==> ((data[0] as int) % 2 == 0 && data[0] / 4 == 0 && data[2]
                / 16 == 0),
            Self::decode(data) matches Ok(f) ==> {
                &&& f.collision_detected_spec() == ((data[0] / 128) % 2 == 1)
                &&& f.crc_error_spec() == ((data[0] / 32) % 2 == 1)
                &&& f.parity_error_spec() == ((data[0] / 16) % 2 == 1)
                &&& f.significant_bits_spec() == data[0] % 16
                &&& f.collision_byte_spec() == data[1]
                &&& f.collision_bit_spec() == data[2] % 16
            },
    {
    }

    /// The flags decoded from three bytes, and whether the bytes are
    /// accepted: every bit of the first byte but bit 1 and the high nibble
    /// of the third byte must be clear.
    pub closed spec fn decode(data: Seq<u8>) -> core::result::Result<Self, ()> {
        if (data[0] as int) % 2 == 0 && data[0] / 4 == 0 && data[2] / 16 == 0 {
            Ok(
                ReceptionFlags {
                    collision_detected: (data[0] / 128) % 2 == 1,
                    crc_error: (data[0] / 32) % 2 == 1,
                    parity_error: (data[0] / 16) % 2 == 1,
                    number_of_significant_bits_in_first_byte: data[0] % 16,
                    index_of_the_first_byte_where_collision_was_detected: data[1],
                    index_of_the_first_bit_where_collision_was_detected: data[2] % 16,
                },
            )
        } else {
            Err(())
        }
    }

    /// The three bytes of a set of reception flags.
    pub open spec fn encode(self) -> Seq<u8> {
        seq![
            (bit_of(self.collision_detected_spec()) * 128 + bit_of(self.crc_error_spec()) * 32
                + bit_of(self.parity_error_spec()) * 16 + self.significant_bits_spec()) as u8,
            self.collision_byte_spec(),
            self.collision_bit_spec(),
        ]
    }
}

impl TryFrom<[u8; 3]> for ReceptionFlags {
    type Error = ();

    fn try_from(data: [u8; 3]) -> (r: core::result::Result<Self, ()>)
        ensures
            r == ReceptionFlags::decode(data@),
    {
        let collision_detected = (data[0] / 128) % 2 == 1;
        let crc_error = (data[0] / 32) % 2 == 1;
        let parity_error = (data[0] / 16) % 2 == 1;
        let number_of_significant_bits_in_first_byte = data[0] % 16;
        let index_of_the_first_byte_where_collision_was_detected = data[1];
        let index_of_the_first_bit_where_collision_was_detected = data[2] % 16;
        if data[0] % 2 == 0 && data[0] / 4 == 0 && data[2] / 16 == 0 {
            Ok(ReceptionFlags {
                collision_detected,
                crc_error,
                parity_error,
                number_of_significant_bits_in_first_byte,
                index_of_the_first_byte_where_collision_was_detected,
                index_of_the_first_bit_where_collision_was_detected,
            })
        } else {
            Err(())
        }
    }
}

impl vstd::std_specs::convert::TryFromSpecImpl<[u8; 3]> for ReceptionFlags {
    open spec fn obeys_try_from_spec() -> bool {
        true
    }

    open spec fn try_from_spec(v: [u8; 3]) -> core::result::Result<Self, ()> {
        ReceptionFlags::decode(v@)
    }
}

impl From<ReceptionFlags> for [u8; 3] {
    fn from(lbf: ReceptionFlags) -> (r: Self)
        ensures
            r@ == lbf.encode(),
    {
        proof {
            use_type_invariant(&lbf);
        }
        let a: u8 = if lbf.collision_detected { 128 } else { 0 };
        let b: u8 = if lbf.crc_error { 32 } else { 0 };
        let c: u8 = if lbf.parity_error { 16 } else { 0 };
        let r = [
            a + b + c + lbf.number_of_significant_bits_in_first_byte,
            lbf.index_of_the_first_byte_where_collision_was_detected,
            lbf.index_of_the_first_bit_where_collision_was_detected,
        ];
        assert(r@ =~= lbf.encode());
        r
    }
}

impl vstd::std_specs::convert::FromSpecImpl<ReceptionFlags> for [u8; 3] {
    open spec fn obeys_from_spec() -> bool {
        false
    }

    open spec fn from_spec(v: ReceptionFlags) -> Self {
        arbitrary()
    }
}

/// Accepted reception flags encode back to the bytes they came from.
pub proof fn lemma_reception_flags_roundtrip(data: Seq<u8>)
    requires
        data.len() == 3,
    ensures
        ReceptionFlags::decode(data) matches Ok(f) ==> f.encode() == data,
{
    reveal(ReceptionFlags::decode);
    let b0 = data[0];
    if b0 % 2 == 0 && b0 / 4 == 0 && data[2] / 16 == 0 {
        assert(b0 == 0 || b0 == 2) by (bit_vector)
            requires
                b0 % 2 == 0,
                b0 / 4 == 0,
        ;
        assert(ReceptionFlags::decode(data)->Ok_0.encode() =~= data);
    }
}

/// Requests of ISO/IEC 14443-A (datasheet Table 41).
pub enum Request {
    /// REQA, 0x26 (7 bits)
    Sens,
    /// WUPA, 0x52 (7 bits)
    All,
    /// Anti-collision, 0x93, 0x95 or 0x97
    SingleDeviceDetection,
    /// Select, 0x9370, 0x9570 or 0x9770
    Select,
    /// HLTA, 0x5000
    Sleep,
}

} // verus!
