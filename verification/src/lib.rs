use vstd::prelude::*;

pub mod analog;
mod calibration;
pub mod callbacks;
mod command;
mod control;
mod driver;
mod error;
mod frame;
pub mod mock;
mod gpio;
pub mod protocol;
pub mod register;
pub mod selection;
mod spi;

pub use command::{Command, CtrlResConf, DacData, IdleParams, LFOFreq, WaitForField, WakeUpSource};
pub use error::{Error, Result, St25r95Error};
pub use control::PollFlags;
pub use driver::{
    CardEmulation, FeliCa, FieldOff, FieldOn, Iso14443A, Iso14443B, Iso15693, NoProtocol, NoRole,
    Reader, St25r95, check_identification, Exchange, LinkOp,
};
pub use frame::{ChipName, EchoResponse, FrameData, ReadResponse};
pub use gpio::St25r95Gpio;
pub use spi::St25r95Spi;
pub use protocol::felica::reader::MAX_PP;
pub use protocol::{ce_iso14443a, felica, iso14443a, iso14443b, iso15693, Protocol};
pub use register::arc_b::{ModulationIndex, ReceiverGain};
pub use register::{acc_a, arc_b, auto_detect_filter, timer_window, wakeup};

verus! {

/// Maximum payload of a response frame.
pub const MAX_BUFFER_SIZE: usize = 530;

/// Maximum payload of a single host-to-chip command: the command announces
/// its payload with a single length byte.
pub const MAX_COMMAND_DATA_LEN: usize = 255;

/// Byte the ST25R95 answers to an Echo command.
pub const ECHO_BYTE: u8 = 0x55;

/// Maximum length of the raw answer to an Echo command: the Echo byte, then
/// possibly the two-byte frame `0x85 0x00`.
pub const ECHO_RESPONSE_MAX_LEN: usize = 3;

/// Host-side deadline, in milliseconds, when no device-side timeout is
/// configured.
pub const DEFAULT_RESPONSE_TIMEOUT_MS: u32 = 100;

/// Margin, in milliseconds, added on top of a configured device-side
/// timeout.
pub const RESPONSE_TIMEOUT_MARGIN_MS: u32 = 50;

} // verus!
