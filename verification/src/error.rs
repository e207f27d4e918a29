//! Errors reported by the driver and by the ST25R95 itself.
use vstd::prelude::*;

verus! {

#[verifier::external_type_specification]
#[verifier::external_body]
pub struct ExUtf8Error(core::str::Utf8Error);

/// Every error the driver can report.
///
/// Driver-side failures (parameter validation, framing, calibration) have a
/// variant of their own; status bytes reported by the chip are carried by
/// [`Error::Hw`].
#[derive(Copy, Clone, Debug, PartialEq)]
#[allow(inconsistent_fields)]
pub enum Error {
    Spi,
    UTF8(core::str::Utf8Error),
    Vec,
    PollTimeout,
    IdentificationError,
    InternalBufferOverflow,
    Hw(St25r95Error),
    InvalidDataLen(usize),
    InvalidModulationIndex(u8),
    InvalidReceiverGain(u8),
    InvalidDemodulatorSensitivity(u8),
    InvalidLoadModulationIndex { load_modulation_index: u8, min: u8, max: u8 },
    InvalidRFU(u8),
    InvalidU8Parameter { min: u8, max: u8, actual: u8 },
    InvalidResponseLength { expected: usize, actual: usize },
    InvalidWakeUpSource(u8),
    CalibrationNeeded,
    TagDetector { dac_ref: u8, dac_guard: u8 },
    /// Tag detector calibration: the expected tag detection did not happen.
    CalibTagDetectionFailed,
    /// Tag detector calibration: the expected timeout did not happen.
    CalibTimeoutFailed,
    /// Tag detector calibration: the next comparator value would leave `0..=255`.
    CalibDacOutOfRange { dac_high: u8, delta: i16 },
    InvalidAntiColState(u8),
    InvalidCascadeLevelFilterCount(usize),
    EchoFailed,
    /// A command was sent and its answer has not been read yet: either the
    /// host-side deadline elapsed while the chip was still working, or a new
    /// command was refused because the previous answer is outstanding.
    ResponseInProgress,
}

/// Status codes reported by the ST25R95 (datasheet, "Error codes").
#[derive(Copy, Clone, Debug, PartialEq, Eq, Structural)]
pub enum St25r95Error {
    /// SOF error in high part (duration 2 to 3 etu) in ISO/IEC 14443B
    EmdSOFerror23,
    /// SOF error in low part (duration 10 to 11 etu) in ISO/IEC 14443B
    EmdSOFerror10,
    /// Extended Guard Time error in ISO/IEC 14443B
    EmdEgt,
    /// TR1 too long, reception stopped in ISO/IEC 14443B
    TrlTooBig,
    /// TR1 too small in ISO/IEC 14443B
    TrlTooSmall,
    /// Wrong frame format detected
    Internal,
    /// Frame correctly received (not an error)
    FrameRecvOK,
    /// Invalid command length
    InvalidCommandLength,
    /// Invalid protocol
    InvalidProtocol,
    /// Listening stopped by the host (card emulation)
    UserStop,
    /// Hardware communication error
    CommunicationError,
    /// Frame wait time out or no tag
    FrameTimeoutOrNoTag,
    /// Invalid start of frame
    InvalidSof,
    /// Receive buffer overflow
    RxBufferOverflow,
    /// Framing error (start bit = 1 or stop bit = 0)
    FramingError,
    /// Extended guard time timeout
    EgtTimeout,
    /// Frame shorter than three bytes (FeliCa)
    InvalidLength,
    /// CRC error (FeliCa)
    CrcError,
    /// Reception lost without end of frame
    ReceptionLostWithoutEof,
    /// No external field (card emulation)
    NoField,
    /// Residual bits in the last byte (ISO/IEC 14443A, not an error)
    UintByte,
    /// A status byte the datasheet does not list
    UnknownError(u8),
}

/// The chip error named by a status byte.
pub open spec fn hw_error_of(code: u8) -> St25r95Error {
    if code == 0x63 {
        St25r95Error::EmdSOFerror23
    } else if code == 0x65 {
        St25r95Error::EmdSOFerror10
    } else if code == 0x66 {
        St25r95Error::EmdEgt
    } else if code == 0x67 {
        St25r95Error::TrlTooBig
    } else if code == 0x68 {
        St25r95Error::TrlTooSmall
    } else if code == 0x71 {
        St25r95Error::Internal
    } else if code == 0x82 {
        St25r95Error::InvalidCommandLength
    } else if code == 0x83 {
        St25r95Error::InvalidProtocol
    } else if code == 0x85 {
        St25r95Error::UserStop
    } else if code == 0x86 {
        St25r95Error::CommunicationError
    } else if code == 0x87 {
        St25r95Error::FrameTimeoutOrNoTag
    } else if code == 0x88 {
        St25r95Error::InvalidSof
    } else if code == 0x89 {
        St25r95Error::RxBufferOverflow
    } else if code == 0x8A {
        St25r95Error::FramingError
    } else if code == 0x8B {
        St25r95Error::EgtTimeout
    } else if code == 0x8C {
        St25r95Error::InvalidLength
    } else if code == 0x8D {
        St25r95Error::CrcError
    } else if code == 0x8E {
        St25r95Error::ReceptionLostWithoutEof
    } else if code == 0x8F {
        St25r95Error::NoField
    } else {
        St25r95Error::UnknownError(code)
    }
}

/// The status byte that stands for a chip error.
pub open spec fn hw_code(e: St25r95Error) -> u8 {
    match e {
        St25r95Error::EmdSOFerror23 => 0x63,
        St25r95Error::EmdSOFerror10 => 0x65,
        St25r95Error::EmdEgt => 0x66,
        St25r95Error::TrlTooBig => 0x67,
        St25r95Error::TrlTooSmall => 0x68,
        St25r95Error::Internal => 0x71,
        St25r95Error::FrameRecvOK => 0x80,
        St25r95Error::InvalidCommandLength => 0x82,
        St25r95Error::InvalidProtocol => 0x83,
        St25r95Error::UserStop => 0x85,
        St25r95Error::CommunicationError => 0x86,
        St25r95Error::FrameTimeoutOrNoTag => 0x87,
        St25r95Error::InvalidSof => 0x88,
        St25r95Error::RxBufferOverflow => 0x89,
        St25r95Error::FramingError => 0x8A,
        St25r95Error::EgtTimeout => 0x8B,
        St25r95Error::InvalidLength => 0x8C,
        St25r95Error::CrcError => 0x8D,
        St25r95Error::ReceptionLostWithoutEof => 0x8E,
        St25r95Error::NoField => 0x8F,
        St25r95Error::UintByte => 0x90,
        St25r95Error::UnknownError(e) => e,
    }
}

/// An error value that decoding a status byte can produce: not one of the
/// two success markers, and no `UnknownError` that hides a listed code.
pub open spec fn is_decoded_hw_error(e: St25r95Error) -> bool {
    match e {
        St25r95Error::FrameRecvOK => false,
        St25r95Error::UintByte => false,
        St25r95Error::UnknownError(c) => hw_error_of(c) == St25r95Error::UnknownError(c),
        _ => true,
    }
}

impl From<u8> for St25r95Error {
    fn from(code: u8) -> (r: Self)
        ensures
            r == hw_error_of(code),
    {
        match code {
            0x63 => St25r95Error::EmdSOFerror23,
            0x65 => St25r95Error::EmdSOFerror10,
            0x66 => St25r95Error::EmdEgt,
            0x67 => St25r95Error::TrlTooBig,
            0x68 => St25r95Error::TrlTooSmall,
            0x71 => St25r95Error::Internal,
            0x82 => St25r95Error::InvalidCommandLength,
            0x83 => St25r95Error::InvalidProtocol,
            0x85 => St25r95Error::UserStop,
            0x86 => St25r95Error::CommunicationError,
            0x87 => St25r95Error::FrameTimeoutOrNoTag,
            0x88 => St25r95Error::InvalidSof,
            0x89 => St25r95Error::RxBufferOverflow,
            0x8A => St25r95Error::FramingError,
            0x8B => St25r95Error::EgtTimeout,
            0x8C => St25r95Error::InvalidLength,
            0x8D => St25r95Error::CrcError,
            0x8E => St25r95Error::ReceptionLostWithoutEof,
            0x8F => St25r95Error::NoField,
            other => St25r95Error::UnknownError(other),
        }
    }
}

impl From<St25r95Error> for u8 {
    fn from(value: St25r95Error) -> (r: Self)
        ensures
            r == hw_code(value),
    {
        match value {
            St25r95Error::EmdSOFerror23 => 0x63,
            St25r95Error::EmdSOFerror10 => 0x65,
            St25r95Error::EmdEgt => 0x66,
            St25r95Error::TrlTooBig => 0x67,
            St25r95Error::TrlTooSmall => 0x68,
            St25r95Error::Internal => 0x71,
            St25r95Error::FrameRecvOK => 0x80,
            St25r95Error::InvalidCommandLength => 0x82,
            St25r95Error::InvalidProtocol => 0x83,
            St25r95Error::UserStop => 0x85,
            St25r95Error::CommunicationError => 0x86,
            St25r95Error::FrameTimeoutOrNoTag => 0x87,
            St25r95Error::InvalidSof => 0x88,
            St25r95Error::RxBufferOverflow => 0x89,
            St25r95Error::FramingError => 0x8A,
            St25r95Error::EgtTimeout => 0x8B,
            St25r95Error::InvalidLength => 0x8C,
            St25r95Error::CrcError => 0x8D,
            St25r95Error::ReceptionLostWithoutEof => 0x8E,
            St25r95Error::NoField => 0x8F,
            St25r95Error::UintByte => 0x90,
            St25r95Error::UnknownError(e) => e,
        }
    }
}

impl From<St25r95Error> for Error {
    fn from(e: St25r95Error) -> (r: Self)
        ensures
            r == Error::Hw(e),
    {
        Error::Hw(e)
    }
}

impl From<core::str::Utf8Error> for Error {
    fn from(e: core::str::Utf8Error) -> (r: Self)
        ensures
            r == Error::UTF8(e),
    {
        Error::UTF8(e)
    }
}

impl From<heapless::CapacityError> for Error {
    fn from(e: heapless::CapacityError) -> (r: Self)
        ensures
            r == Error::Vec,
    {
        Error::Vec
    }
}

impl vstd::std_specs::convert::FromSpecImpl<core::str::Utf8Error> for Error {
    open spec fn obeys_from_spec() -> bool {
        true
    }

    open spec fn from_spec(v: core::str::Utf8Error) -> Self {
        Error::UTF8(v)
    }
}

impl vstd::std_specs::convert::FromSpecImpl<heapless::CapacityError> for Error {
    open spec fn obeys_from_spec() -> bool {
        true
    }

    open spec fn from_spec(v: heapless::CapacityError) -> Self {
        Error::Vec
    }
}

impl vstd::std_specs::convert::FromSpecImpl<u8> for St25r95Error {
    open spec fn obeys_from_spec() -> bool {
        true
    }

    open spec fn from_spec(v: u8) -> Self {
        hw_error_of(v)
    }
}

impl vstd::std_specs::convert::FromSpecImpl<St25r95Error> for u8 {
    open spec fn obeys_from_spec() -> bool {
        true
    }

    open spec fn from_spec(v: St25r95Error) -> Self {
        hw_code(v)
    }
}

impl vstd::std_specs::convert::FromSpecImpl<St25r95Error> for Error {
    open spec fn obeys_from_spec() -> bool {
        true
    }

    open spec fn from_spec(v: St25r95Error) -> Self {
        Error::Hw(v)
    }
}

/// Decoding a status byte and encoding the error again gives the byte back.
pub proof fn lemma_hw_code_roundtrip(code: u8)
    ensures
        hw_code(hw_error_of(code)) == code,
        is_decoded_hw_error(hw_error_of(code)),
{
}

/// Encoding a decodable chip error and decoding the byte gives the error back.
pub proof fn lemma_hw_error_roundtrip(e: St25r95Error)
    requires
        is_decoded_hw_error(e),
    ensures
        hw_error_of(hw_code(e)) == e,
{
}

pub type Result<T> = core::result::Result<T, Error>;

/// The error codes of the datasheet: each listed status byte names its
/// error; the two success markers are 0x80 and 0x90.
pub proof fn lemma_hw_error_codes()
    ensures
        hw_error_of(0x63) == St25r95Error::EmdSOFerror23,
        hw_error_of(0x65) == St25r95Error::EmdSOFerror10,
        hw_error_of(0x66) == St25r95Error::EmdEgt,
        hw_error_of(0x67) == St25r95Error::TrlTooBig,
        hw_error_of(0x68) == St25r95Error::TrlTooSmall,
        hw_error_of(0x71) == St25r95Error::Internal,
        hw_error_of(0x82) == St25r95Error::InvalidCommandLength,
        hw_error_of(0x83) == St25r95Error::InvalidProtocol,
        hw_error_of(0x85) == St25r95Error::UserStop,
        hw_error_of(0x86) == St25r95Error::CommunicationError,
        hw_error_of(0x87) == St25r95Error::FrameTimeoutOrNoTag,
        hw_error_of(0x88) == St25r95Error::InvalidSof,
        hw_error_of(0x89) == St25r95Error::RxBufferOverflow,
        hw_error_of(0x8A) == St25r95Error::FramingError,
        hw_error_of(0x8B) == St25r95Error::EgtTimeout,
        hw_error_of(0x8C) == St25r95Error::InvalidLength,
        hw_error_of(0x8D) == St25r95Error::CrcError,
        hw_error_of(0x8E) == St25r95Error::ReceptionLostWithoutEof,
        hw_error_of(0x8F) == St25r95Error::NoField,
        hw_code(St25r95Error::FrameRecvOK) == 0x80,
        hw_code(St25r95Error::UintByte) == 0x90,
{
}

} // verus!
