//! Frames read from the ST25R95: `<Status><Len><Data>` responses, the answer
//! to Echo, and the fixed-capacity buffers that hold their payloads.
use crate::error::{hw_error_of, Error, Result, St25r95Error};
use crate::{ECHO_BYTE, MAX_BUFFER_SIZE};
use vstd::prelude::*;

verus! {

#[verifier::external_type_specification]
#[verifier::external_body]
pub struct ExCapacityError(heapless::CapacityError);

/// Payload of a response: at most [`MAX_BUFFER_SIZE`] bytes held in a
/// `heapless::Vec`.
#[verifier::external_body]
#[derive(Debug, PartialEq)]
pub struct FrameData {
    inner: heapless::Vec<u8, MAX_BUFFER_SIZE>,
}

/// The bytes a [`FrameData`] holds, in order.
pub uninterp spec fn frame_bytes(data: FrameData) -> Seq<u8>;

impl View for FrameData {
    type V = Seq<u8>;

    open spec fn view(&self) -> Seq<u8> {
        frame_bytes(*self)
    }
}

impl Clone for FrameData {
    /// `heapless::Vec::clone`: the copy holds the same bytes.
    #[verifier::external_body]
    fn clone(&self) -> (r: Self)
        ensures
            frame_bytes(r) == frame_bytes(*self),
    {
        FrameData { inner: self.inner.clone() }
    }
}

impl FrameData {
    /// `heapless::Vec::new`: an empty buffer.
    #[verifier::external_body]
    pub fn new() -> (r: Self)
        ensures
            frame_bytes(r) == Seq::<u8>::empty(),
    {
        FrameData { inner: heapless::Vec::new() }
    }

    /// `heapless::Vec::len`: the number of bytes held, never more than the
    /// capacity.
    #[verifier::external_body]
    pub fn len(&self) -> (r: usize)
        ensures
            r == frame_bytes(*self).len(),
            r <= MAX_BUFFER_SIZE,
    {
        self.inner.len()
    }

    /// `heapless::Vec::as_slice`: the bytes held.
    #[verifier::external_body]
    pub fn as_slice(&self) -> (r: &[u8])
        ensures
            r@ == frame_bytes(*self),
    {
        self.inner.as_slice()
    }

    /// `heapless::Vec::extend_from_slice`: appends `other` when it fits in
    /// the remaining capacity, and otherwise fails and leaves the buffer
    /// unchanged.
    #[verifier::external_body]
    pub fn extend_from_slice(&mut self, other: &[u8]) -> (r: core::result::Result<
        (),
        heapless::CapacityError,
    >)
        ensures
            frame_bytes(*old(self)).len() + other@.len() <= MAX_BUFFER_SIZE ==> r is Ok
                && frame_bytes(*final(self)) == frame_bytes(*old(self)) + other@,
            frame_bytes(*old(self)).len() + other@.len() > MAX_BUFFER_SIZE ==> r is Err
                && frame_bytes(*final(self)) == frame_bytes(*old(self)),
    {
        self.inner.extend_from_slice(other)
    }

    /// `heapless::Vec::push`: appends `byte` when the buffer is not full, and
    /// otherwise hands it back and leaves the buffer unchanged.
    #[verifier::external_body]
    pub fn push(&mut self, byte: u8) -> (r: core::result::Result<(), u8>)
        ensures
            frame_bytes(*old(self)).len() < MAX_BUFFER_SIZE ==> (r is Ok && frame_bytes(
                *final(self),
            ) == frame_bytes(*old(self)).push(byte)),
            frame_bytes(*old(self)).len() >= MAX_BUFFER_SIZE ==> (r == Err::<(), u8>(byte)
                && frame_bytes(*final(self)) == frame_bytes(*old(self))),
    {
        self.inner.push(byte)
    }
}

/// Name part of the identification of the chip: thirteen bytes of UTF-8
/// held in a `heapless::String`.
#[verifier::external_body]
#[derive(Debug, PartialEq)]
pub struct ChipName {
    inner: heapless::String<13>,
}

/// The bytes of a [`ChipName`].
pub uninterp spec fn chip_name_bytes(name: ChipName) -> Seq<u8>;

/// A continuation byte of a UTF-8 sequence: `10xx_xxxx`.
pub open spec fn utf8_continuation(b: u8) -> bool {
    0x80 <= b <= 0xBF
}

/// The length of the well-formed UTF-8 sequence that starts `bytes`, or 0
/// when none does (the Unicode standard's table of well-formed byte
/// sequences: no overlong forms, no surrogates, nothing above U+10FFFF).
pub open spec fn utf8_sequence_len(bytes: Seq<u8>) -> nat {
    let n = bytes.len();
    let b0 = bytes[0];
    if n == 0 {
        0
    } else if b0 <= 0x7F {
        1
    } else if 0xC2 <= b0 <= 0xDF {
        if n >= 2 && utf8_continuation(bytes[1]) { 2 } else { 0 }
    } else if 0xE0 <= b0 <= 0xEF {
        let lo: u8 = if b0 == 0xE0 { 0xA0 } else { 0x80 };
        let hi: u8 = if b0 == 0xED { 0x9F } else { 0xBF };
        if n >= 3 && lo <= bytes[1] <= hi && utf8_continuation(bytes[2]) { 3 } else { 0 }
    } else if 0xF0 <= b0 <= 0xF4 {
        let lo: u8 = if b0 == 0xF0 { 0x90 } else { 0x80 };
        let hi: u8 = if b0 == 0xF4 { 0x8F } else { 0xBF };
        if n >= 4 && lo <= bytes[1] <= hi && utf8_continuation(bytes[2]) && utf8_continuation(
            bytes[3],
        ) {
            4
        } else {
            0
        }
    } else {
        0
    }
}

/// Whether the bytes are well-formed UTF-8: a succession of well-formed
/// sequences.
pub open spec fn utf8_valid(bytes: Seq<u8>) -> bool
    decreases bytes.len(),
{
    if bytes.len() == 0 {
        true
    } else {
        let n = utf8_sequence_len(bytes);
        if 0 < n <= bytes.len() {
            utf8_valid(bytes.skip(n as int))
        } else {
            false
        }
    }
}

impl ChipName {
    /// `heapless::String::from_utf8`, on a `heapless::Vec` filled with
    /// `bytes`: like `core::str::from_utf8`, it accepts exactly well-formed
    /// UTF-8, and then the name holds exactly `bytes`.
    #[verifier::external_body]
    pub(crate) fn from_utf8(bytes: &[u8]) -> (r: core::result::Result<ChipName, core::str::Utf8Error>)
        requires
            bytes@.len() <= 13,
        ensures
            r is Ok <==> utf8_valid(bytes@),
            r matches Ok(n) ==> chip_name_bytes(n) == bytes@,
    {
        let vec: heapless::Vec<u8, 13> = heapless::Vec::from_slice(bytes).unwrap();
        heapless::String::from_utf8(vec).map(|inner| ChipName { inner })
    }

    /// `str::as_bytes` of the name: its bytes.
    #[verifier::external_body]
    pub fn as_bytes(&self) -> (r: &[u8])
        ensures
            r@ == chip_name_bytes(*self),
    {
        self.inner.as_bytes()
    }
}

/// Status byte of a response with the long-frame length bits cleared.
///
/// A success header `1xx0_0000`/`1xx1_0000` also carries bits 6-5 of the
/// length; those are dropped so that only 0x80 and 0x90 remain. Every other
/// byte is kept as is.
pub open spec fn status_code(value: u8) -> u8 {
    if value / 128 == 1 && value % 16 == 0 {
        (128 + ((value / 16) % 2) * 16) as u8
    } else {
        value
    }
}

/// Whether a status code reports success: 0x00, or the framing codes 0x80
/// and 0x90 of a correctly received frame.
pub open spec fn status_ok(code: u8) -> bool {
    code == 0x00 || code == 0x80 || code == 0x90
}

/// Data length announced by a response header (datasheet §4.3, long
/// frames): the length byte, plus bits 6-5 of a success status byte as bits
/// 9-8 of the length.
pub open spec fn header_data_len(b0: u8, b1: u8) -> int {
    b1 + if b0 / 128 == 1 && b0 % 16 == 0 {
        ((b0 / 32) % 4) * 256
    } else {
        0
    }
}

/// What decoding a raw frame `<Status><Len><Data>` gives: the status code
/// and the payload, or the error.
pub open spec fn parse_frame(bytes: Seq<u8>) -> Result<(u8, Seq<u8>)> {
    if bytes.len() < 2 {
        Err(Error::InvalidDataLen(bytes.len() as usize))
    } else if header_data_len(bytes[0], bytes[1]) != bytes.len() - 2 {
        Err(Error::InvalidDataLen(bytes.len() as usize))
    } else if bytes.len() - 2 > MAX_BUFFER_SIZE {
        Err(Error::Vec)
    } else {
        Ok((status_code(bytes[0]), bytes.subrange(2, bytes.len() as int)))
    }
}

/// Response of the ST25R95 to a command: the status code and the payload.
#[derive(Clone, Debug, PartialEq)]
pub struct ReadResponse {
    /// Status code; see [`ReadResponse::ensure_ok`].
    pub code: u8,
    /// Payload, at most [`MAX_BUFFER_SIZE`] bytes.
    pub data: FrameData,
}

/// What [`ReadResponse::ensure_ok`] gives for a status code.
pub open spec fn check_status(code: u8) -> Result<()> {
    if status_ok(code) {
        Ok(())
    } else {
        Err(Error::Hw(hw_error_of(code)))
    }
}

/// What [`ReadResponse::expect_data_len`] gives for a response.
pub open spec fn check_data_len(code: u8, data: Seq<u8>, expected: usize) -> Result<()> {
    if !status_ok(code) {
        Err(Error::Hw(hw_error_of(code)))
    } else if data.len() != expected {
        Err(Error::InvalidResponseLength { expected, actual: data.len() as usize })
    } else {
        Ok(())
    }
}

impl ReadResponse {
    /// Status code of a response header byte; see [`status_code`].
    pub fn code(value: u8) -> (r: u8)
        ensures
            r == status_code(value),
    {
        if value / 128 == 1 && value % 16 == 0 {
            128 + ((value / 16) % 2) * 16
        } else {
            value
        }
    }

    /// `Ok` for the success codes 0x00, 0x80 and 0x90, otherwise the chip's
    /// error as [`Error::Hw`].
    pub fn ensure_ok(&self) -> (r: Result<()>)
        ensures
            r == check_status(self.code),
    {
        match self.code {
            0x00 | 0x80 | 0x90 => Ok(()),
            code => Err(Error::Hw(St25r95Error::from(code))),
        }
    }

    /// Data length announced by a two-byte response header, from 0 to
    /// [`MAX_BUFFER_SIZE`]: a header announcing more, which the chip does
    /// not send, gives [`MAX_BUFFER_SIZE`].
    pub fn data_len(value: [u8; 2]) -> (r: usize)
        ensures
            r == if header_data_len(value@[0], value@[1]) <= MAX_BUFFER_SIZE {
                header_data_len(value@[0], value@[1])
            } else {
                MAX_BUFFER_SIZE as int
            },
            r <= MAX_BUFFER_SIZE,
    {
        let len = Self::header_len(value[0], value[1]);
        if len <= MAX_BUFFER_SIZE {
            len
        } else {
            MAX_BUFFER_SIZE
        }
    }

    /// Data length announced by the header bytes `b0`, `b1`.
    fn header_len(b0: u8, b1: u8) -> (r: usize)
        ensures
            r == header_data_len(b0, b1),
            r < 1024,
    {
        let long: usize = if b0 / 128 == 1 && b0 % 16 == 0 {
            ((b0 / 32) % 4) as usize * 256
        } else {
            0
        };
        b1 as usize + long
    }

    /// The status is a success and the payload has exactly `expected`
    /// bytes; the status is checked first.
    pub fn expect_data_len(&self, expected: usize) -> (r: Result<()>)
        ensures
            r == check_data_len(self.code, self.data@, expected),
    {
        match self.ensure_ok() {
            Ok(()) => {},
            Err(e) => return Err(e),
        }
        let actual = self.data.len();
        if actual != expected {
            Err(Error::InvalidResponseLength { expected, actual })
        } else {
            Ok(())
        }
    }
}

impl<'a> TryFrom<&'a [u8]> for ReadResponse {
    type Error = Error;

    /// Decode a raw `<Status><Len><Data>` frame; see [`parse_frame`].
    fn try_from(value: &'a [u8]) -> (r: Result<Self>)
        ensures
            r matches Ok(resp) ==> parse_frame(value@) == Ok::<(u8, Seq<u8>), Error>(
                (resp.code, resp.data@),
            ),
            r matches Err(e) ==> parse_frame(value@) == Err::<(u8, Seq<u8>), Error>(e),
    {
        let len = value.len();
        if len < 2 {
            return Err(Error::InvalidDataLen(len));
        }
        let data_len = Self::header_len(value[0], value[1]);
        if data_len != len - 2 {
            return Err(Error::InvalidDataLen(len));
        }
        let payload = vstd::slice::slice_subrange(value, 2, len);
        let mut data = FrameData::new();
        match data.extend_from_slice(payload) {
            Ok(()) => {},
            Err(_) => return Err(Error::Vec),
        }
        assert(Seq::<u8>::empty() + payload@ =~= payload@);
        Ok(Self { code: Self::code(value[0]), data })
    }
}

impl<'a> vstd::std_specs::convert::TryFromSpecImpl<&'a [u8]> for ReadResponse {
    open spec fn obeys_try_from_spec() -> bool {
        false
    }

    open spec fn try_from_spec(v: &'a [u8]) -> Result<Self> {
        arbitrary()
    }
}

/// Answer of the ST25R95 to an Echo command.
///
/// An ordinary Echo answers the single byte [`ECHO_BYTE`]; an Echo that
/// leaves Listen mode answers that byte followed by a frame reporting why
/// listening stopped (`0x85 0x00`, [`crate::St25r95Error::UserStop`]).
#[derive(Clone, Debug, PartialEq)]
pub enum EchoResponse {
    /// Exactly [`ECHO_BYTE`] and nothing else.
    Echo,
    /// [`ECHO_BYTE`] followed by a frame.
    ListenCancelled(ReadResponse),
}

/// How an Echo answer is classified: a bare Echo byte, the Echo byte
/// followed by a frame (decoded by [`parse_frame`]), or a failure.
pub open spec fn parse_echo(bytes: Seq<u8>) -> Result<Option<(u8, Seq<u8>)>> {
    if bytes.len() == 0 || bytes[0] != ECHO_BYTE {
        Err(Error::EchoFailed)
    } else if bytes.len() == 1 {
        Ok(None)
    } else {
        match parse_frame(bytes.subrange(1, bytes.len() as int)) {
            Ok(f) => Ok(Some(f)),
            Err(e) => Err(e),
        }
    }
}

impl<'a> TryFrom<&'a [u8]> for EchoResponse {
    type Error = Error;

    /// Classify the raw bytes of an Echo answer; see [`parse_echo`].
    fn try_from(value: &'a [u8]) -> (r: Result<Self>)
        ensures
            r matches Ok(EchoResponse::Echo) ==> parse_echo(value@) == Ok::<
                Option<(u8, Seq<u8>)>,
                Error,
            >(None),
            r matches Ok(EchoResponse::ListenCancelled(resp)) ==> parse_echo(value@) == Ok::<
                Option<(u8, Seq<u8>)>,
                Error,
            >(Some((resp.code, resp.data@))),
            r matches Err(e) ==> parse_echo(value@) == Err::<Option<(u8, Seq<u8>)>, Error>(e),
    {
        if value.len() == 0 || value[0] != ECHO_BYTE {
            return Err(Error::EchoFailed);
        }
        if value.len() == 1 {
            return Ok(Self::Echo);
        }
        let frame = slice_from(value, 1);
        match ReadResponse::try_from(frame) {
            Ok(resp) => Ok(Self::ListenCancelled(resp)),
            Err(e) => Err(e),
        }
    }
}

impl<'a> vstd::std_specs::convert::TryFromSpecImpl<&'a [u8]> for EchoResponse {
    open spec fn obeys_try_from_spec() -> bool {
        false
    }

    open spec fn try_from_spec(v: &'a [u8]) -> Result<Self> {
        arbitrary()
    }
}

/// The bytes of `s` from index `start` on.
fn slice_from(s: &[u8], start: usize) -> (r: &[u8])
    requires
        start <= s@.len(),
    ensures
        r@ == s@.subrange(start as int, s@.len() as int),
{
    vstd::slice::slice_subrange(s, start, s.len())
}

/// Response headers (datasheet §4.3): a success status 0x80 or 0x90 may
/// carry bits 9-8 of the data length in its bits 6-5, so 0xA0/0xB0 add 256,
/// 0xC0/0xD0 add 512 and 0xE0/0xF0 add 768 to the length byte, and all of
/// them report the status 0x80 (bit 4 clear) or 0x90 (bit 4 set); any
/// other status byte is its own status and the length byte alone is the
/// length.
pub proof fn lemma_response_header(b0: u8, b1: u8)
    ensures
        (b0 == 0x80 || b0 == 0x90) ==> header_data_len(b0, b1) == b1,
        (b0 == 0xA0 || b0 == 0xB0) ==> header_data_len(b0, b1) == 256 + b1,
        (b0 == 0xC0 || b0 == 0xD0) ==> header_data_len(b0, b1) == 512 + b1,
        (b0 == 0xE0 || b0 == 0xF0) ==> header_data_len(b0, b1) == 768 + b1,
        (b0 == 0x80 || b0 == 0xA0 || b0 == 0xC0 || b0 == 0xE0) ==> status_code(b0) == 0x80,
        (b0 == 0x90 || b0 == 0xB0 || b0 == 0xD0 || b0 == 0xF0) ==> status_code(b0) == 0x90,
        !(b0 >= 0x80 && b0 % 16 == 0) ==> header_data_len(b0, b1) == b1 && status_code(b0) == b0,
        status_ok(status_code(b0)) <==> (b0 == 0 || (b0 >= 0x80 && b0 % 16 == 0)),
{
}

} // verus!
