//! SPI link between the host and the ST25R95.
use crate::control::PollFlags;
use crate::error::Result;
use crate::frame::ReadResponse;
use crate::{Command, ECHO_RESPONSE_MAX_LEN};
use vstd::prelude::*;

verus! {

/// The SPI transport to the ST25R95, implemented for the platform.
///
/// The driver hands every command to [`send_command`](Self::send_command)
/// with a payload of at most [`crate::MAX_COMMAND_DATA_LEN`] bytes, and reads
/// every answer with [`read_data`](Self::read_data), except the answer to
/// Echo, which is not a `<Status><Len><Data>` frame and is read with
/// [`read_echo`](Self::read_echo).
pub trait St25r95Spi {
    /// Poll the chip until the given flags are set, or fail.
    fn poll(&mut self, flags: PollFlags) -> Result<()>;

    /// Reset the chip through the SPI interface.
    fn reset(&mut self) -> Result<()>;

    /// Send `<Control><Command><Len><Data>` for `cmd` and `data`.
    fn send_command(&mut self, cmd: Command, data: &[u8], sod: bool) -> Result<()>;

    /// Read a `<Status><Len><Data>` answer.
    fn read_data(&mut self) -> Result<ReadResponse>;

    /// Read the raw answer to Echo into `buf` and report how many bytes
    /// were read.
    fn read_echo(&mut self, buf: &mut [u8; ECHO_RESPONSE_MAX_LEN]) -> Result<usize>;

    /// Put the SPI link back in a known state, dropping whatever the chip
    /// still holds.
    fn flush(&mut self) -> Result<()>;
}

} // verus!
