//! [`St25r95Spi`] and [`St25r95Gpio`] implementations that stand in for
//! hardware in examples and in tests of code built on the driver. They
//! answer every command with a well-formed, successful response and never
//! fail; they do not emulate the ST25R95.
use crate::command::{Command, LFOFreq, WakeUpSource};
use crate::control::PollFlags;
use crate::error::{Error, Result};
use crate::frame::{FrameData, ReadResponse};
use crate::gpio::St25r95Gpio;
use crate::spi::St25r95Spi;
use crate::{ECHO_BYTE, ECHO_RESPONSE_MAX_LEN, MAX_COMMAND_DATA_LEN};
use vstd::prelude::*;

verus! {

/// Value the mock answers to a register read: a valid ARC_B byte, 17%
/// modulation index and 27 dB receiver gain.
const ARC_B: u8 = 0x23;

/// Identification the mock answers to IDN: thirteen bytes of chip name,
/// "NFC FS2JAST4" and a NUL, then the two-byte ROM CRC.
fn idn_answer() -> (r: [u8; 15])
    ensures
        r@ == seq![
            0x4Eu8, 0x46, 0x43, 0x20, 0x46, 0x53, 0x32, 0x4A, 0x41, 0x53, 0x54, 0x34, 0x00,
            0x00, 0x01,
        ],
{
    [0x4E, 0x46, 0x43, 0x20, 0x46, 0x53, 0x32, 0x4A, 0x41, 0x53, 0x54, 0x34, 0x00, 0x00, 0x01]
}

/// SPI link that answers every command successfully.
///
/// The answer follows the last command sent: IDN gets a plausible
/// identification, RdReg a register value, PollField a detected field,
/// Idle a timeout wake-up, SendRecv a short payload, and every other
/// command an empty success. Payloads longer than
/// [`MAX_COMMAND_DATA_LEN`] are refused, as a conforming link would.
#[derive(Debug)]
pub struct MockSpi {
    last_command: Option<Command>,
}

impl Default for MockSpi {
    fn default() -> (r: Self)
        ensures
            r.last_command() is None,
    {
        MockSpi { last_command: None }
    }
}

impl MockSpi {
    /// The last command sent and not answered yet.
    pub closed spec fn last_command(&self) -> Option<Command> {
        self.last_command
    }
}

/// The payload the mock answers after `last`: the identification after
/// IDN, [`ARC_B`] after RdReg, a detected field after PollField, a timeout
/// wake-up after Idle, two bytes after SendRecv, and nothing otherwise.
pub open spec fn mock_answer(last: Option<Command>) -> Seq<u8> {
    match last {
        Some(Command::Idn) => seq![
            0x4Eu8, 0x46, 0x43, 0x20, 0x46, 0x53, 0x32, 0x4A, 0x41, 0x53, 0x54, 0x34, 0x00,
            0x00, 0x01,
        ],
        Some(Command::RdReg) => seq![0x23u8],
        Some(Command::PollField) => seq![0x01u8],
        Some(Command::Idle) => seq![0x01u8],
        Some(Command::SendRecv) => seq![0x44u8, 0x00u8],
        _ => Seq::empty(),
    }
}

impl St25r95Spi for MockSpi {
    fn poll(&mut self, _flags: PollFlags) -> (r: Result<()>)
        ensures
            r is Ok,
            final(self).last_command() == old(self).last_command(),
    {
        Ok(())
    }

    fn reset(&mut self) -> (r: Result<()>)
        ensures
            r is Ok,
            final(self).last_command() is None,
    {
        self.last_command = None;
        Ok(())
    }

    fn send_command(&mut self, cmd: Command, data: &[u8], _sod: bool) -> (r: Result<()>)
        ensures
            data@.len() > MAX_COMMAND_DATA_LEN ==> r == Err::<(), Error>(
                Error::InvalidDataLen(data@.len() as usize),
            ) && final(self).last_command() == old(self).last_command(),
            data@.len() <= MAX_COMMAND_DATA_LEN ==> r is Ok && final(self).last_command() == Some(
                cmd,
            ),
    {
        if data.len() > MAX_COMMAND_DATA_LEN {
            return Err(Error::InvalidDataLen(data.len()));
        }
        self.last_command = Some(cmd);
        Ok(())
    }

    fn read_data(&mut self) -> (r: Result<ReadResponse>)
        ensures
            r matches Ok(resp) && resp.code == 0 && resp.data@ == mock_answer(
                old(self).last_command(),
            ),
            final(self).last_command() is None,
    {
        let mut data = FrameData::new();
        let last = self.last_command;
        self.last_command = None;
        match last {
            Some(Command::Idn) => {
                let idn = idn_answer();
                match data.extend_from_slice(idn.as_slice()) {
                    Ok(()) => {},
                    Err(e) => return Err(Error::from(e)),
                }
            },
            Some(Command::RdReg) => match data.push(ARC_B) {
                Ok(()) => {},
                Err(_) => return Err(Error::Vec),
            },
            Some(Command::PollField) => match data.push(0x01) {
                Ok(()) => {},
                Err(_) => return Err(Error::Vec),
            },
            Some(Command::Idle) => {
                let wake_up = WakeUpSource {
                    lfo_freq: LFOFreq::KHz32,
                    ss_low_pulse: false,
                    irq_in_low_pulse: false,
                    field_detection: false,
                    tag_detection: false,
                    timeout: true,
                };
                match data.push(wake_up.into()) {
                    Ok(()) => {},
                    Err(_) => return Err(Error::Vec),
                }
            },
            Some(Command::SendRecv) => {
                let answer = [0x44u8, 0x00u8];
                match data.extend_from_slice(answer.as_slice()) {
                    Ok(()) => {},
                    Err(e) => return Err(Error::from(e)),
                }
            },
            _ => {},
        }
        Ok(ReadResponse { code: 0, data })
    }

    fn read_echo(&mut self, buf: &mut [u8; ECHO_RESPONSE_MAX_LEN]) -> (r: Result<usize>)
        ensures
            r == Ok::<usize, Error>(1),
            final(buf)@[0] == ECHO_BYTE,
            final(self).last_command() == old(self).last_command(),
    {
        buf[0] = ECHO_BYTE;
        Ok(1)
    }

    fn flush(&mut self) -> (r: Result<()>)
        ensures
            r is Ok,
            final(self).last_command() == old(self).last_command(),
    {
        Ok(())
    }
}

/// GPIO whose IRQ_OUT is always ready: every wait succeeds at once, so a
/// mocked command never reports [`Error::ResponseInProgress`].
#[derive(Debug)]
pub struct MockGpio;

impl Default for MockGpio {
    fn default() -> (r: Self)
        ensures
            r == MockGpio,
    {
        MockGpio
    }
}

impl St25r95Gpio for MockGpio {
    fn irq_in_pulse_low(&mut self) {
    }

    fn wait_irq_out_falling_edge(&mut self, _timeout: u32) -> (r: core::result::Result<(), ()>)
        ensures
            r is Ok,
    {
        Ok(())
    }
}

} // verus!
