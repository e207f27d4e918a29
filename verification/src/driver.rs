//! The ST25R95 driver and its type states.
use crate::calibration::{
    adjust_calibration_dac_high, calib_command, calib_delta, calib_next, calib_params_with,
    calib_run, calib_search, calib_state, lemma_calib_bad_answer, lemma_calib_cut,
    lemma_calib_done, lemma_calib_result_aligned, lemma_calib_run_answered, lemma_calib_search_prefix, lemma_calib_state_push, CalibNext,
};
use crate::command::{
    idle_payload, idle_timeout_us, t_ref_ms_of, wus_of, Command, DacData, IdleParams, WaitForField, WakeUpSource,
};
use crate::register::arc_b::{
    arc_b_byte, arc_b_of, modulation_index_bits, ArcB, ModulationIndex, ReceiverGain,
};
use crate::register::acc_a::{
    acc_a_byte, acc_a_of, sensitivity_bits, AccA, DemodulatorSensitivity, LoadModulationIndex,
};
use crate::register::auto_detect_filter::AutoDetectFilter;
use crate::protocol::iso14443a::card_emulation::{anti_col_code, anti_col_of, AntiColState};
use crate::protocol::iso14443a::{ATQA, SAK, UID};
use crate::register::timer_window::TimerWindow;
use crate::register::wakeup::Wakeup;
use crate::register::Register;
use crate::control::PollFlags;
use crate::error::{Error, Result, St25r95Error};
use crate::frame::{
    check_data_len, check_status, chip_name_bytes, parse_echo, utf8_valid, ChipName,
    EchoResponse, ReadResponse,
};
use crate::gpio::St25r95Gpio;
use crate::protocol::iso15693::reader::Modulation;
use crate::protocol::{self, felica, iso14443a, iso14443b, iso15693, Protocol, ProtocolParams};
use crate::spi::St25r95Spi;
use crate::{
    DEFAULT_RESPONSE_TIMEOUT_MS, ECHO_RESPONSE_MAX_LEN, MAX_COMMAND_DATA_LEN,
    RESPONSE_TIMEOUT_MARGIN_MS,
};
use core::marker::PhantomData;
use vstd::prelude::*;

verus! {

/// Type state: the RF field is on.
#[derive(Debug)]
pub struct FieldOn;

impl Default for FieldOn {
    fn default() -> (r: Self) {
        FieldOn
    }
}

/// Type state: the RF field is off.
#[derive(Debug)]
pub struct FieldOff;

impl Default for FieldOff {
    fn default() -> (r: Self) {
        FieldOff
    }
}

/// Type state: reader mode.
#[derive(Debug)]
pub struct Reader;

impl Default for Reader {
    fn default() -> (r: Self) {
        Reader
    }
}

/// Type state: card emulation; the flag tells whether the chip is in Listen
/// mode.
#[derive(Debug)]
pub struct CardEmulation(pub(crate) iso14443a::card_emulation::Listen);

impl CardEmulation {
    /// Whether the chip is in Listen mode.
    pub closed spec fn listening(&self) -> bool {
        self.0
    }
}

impl Default for CardEmulation {
    fn default() -> (r: Self)
        ensures
            !r.listening(),
    {
        CardEmulation(false)
    }
}

/// Type state: no role selected yet.
#[derive(Debug)]
pub struct NoRole;

/// Type state: ISO/IEC 15693, with the modulation it was selected with.
#[derive(Debug)]
pub struct Iso15693(pub(crate) Modulation);

impl Iso15693 {
    /// The modulation the protocol was selected with.
    pub closed spec fn modulation_spec(&self) -> Modulation {
        self.0
    }
}

impl Default for Iso15693 {
    fn default() -> (r: Self)
        ensures
            r.modulation_spec() == Modulation::Percent100,
    {
        Iso15693(Modulation::Percent100)
    }
}

/// Type state: ISO/IEC 14443-A.
#[derive(Debug)]
pub struct Iso14443A;

impl Default for Iso14443A {
    fn default() -> (r: Self) {
        Iso14443A
    }
}

/// Type state: ISO/IEC 14443-B.
#[derive(Debug)]
pub struct Iso14443B;

impl Default for Iso14443B {
    fn default() -> (r: Self) {
        Iso14443B
    }
}

/// Type state: FeliCa.
#[derive(Debug)]
pub struct FeliCa;

impl Default for FeliCa {
    fn default() -> (r: Self) {
        FeliCa
    }
}

/// Type state: no protocol selected yet.
#[derive(Debug)]
pub struct NoProtocol;

/// A command and its payload, as handed to the SPI implementation.
pub type SentCommand = (Command, Seq<u8>);

/// A response as read from the SPI implementation: status code and payload.
pub type Answer = (u8, Seq<u8>);

/// Host-side deadline, in milliseconds, for a device-side timeout in
/// microseconds: the timeout rounded down to milliseconds, plus one, plus
/// the margin, saturating at `u32::MAX`, and never below the default
/// deadline.
pub open spec fn host_deadline(device_timeout_us: Option<u64>) -> u32 {
    match device_timeout_us {
        None => DEFAULT_RESPONSE_TIMEOUT_MS,
        Some(us) => {
            let t: int = if us / 1000 > u32::MAX {
                u32::MAX as int
            } else {
                (us / 1000) as int
            };
            let h: int = if t + 1 + RESPONSE_TIMEOUT_MARGIN_MS > u32::MAX {
                u32::MAX as int
            } else {
                t + 1 + RESPONSE_TIMEOUT_MARGIN_MS
            };
            if h < DEFAULT_RESPONSE_TIMEOUT_MS {
                DEFAULT_RESPONSE_TIMEOUT_MS
            } else {
                h as u32
            }
        },
    }
}

/// The host never gives up before the default deadline, nor before the
/// device timeout itself has elapsed.
pub proof fn lemma_host_deadline_covers_device_timeout(us: u64)
    requires
        us / 1000 + 1 + RESPONSE_TIMEOUT_MARGIN_MS <= u32::MAX,
    ensures
        host_deadline(Some(us)) >= DEFAULT_RESPONSE_TIMEOUT_MS,
        host_deadline(Some(us)) * 1000 > us,
        host_deadline(None) == DEFAULT_RESPONSE_TIMEOUT_MS,
{
}

/// Turn a device-side timeout in microseconds into a host-side deadline in
/// milliseconds; see [`host_deadline`].
pub(crate) fn host_timeout_ms(device_timeout_us: Option<u64>) -> (r: u32)
    ensures
        r == host_deadline(device_timeout_us),
{
    match device_timeout_us {
        None => DEFAULT_RESPONSE_TIMEOUT_MS,
        Some(us) => {
            let ms = us / 1000;
            let t: u32 = if ms > u32::MAX as u64 {
                u32::MAX
            } else {
                ms as u32
            };
            let h: u32 = if t as u64 + 1 + RESPONSE_TIMEOUT_MARGIN_MS as u64 > u32::MAX as u64 {
                u32::MAX
            } else {
                t + 1 + RESPONSE_TIMEOUT_MARGIN_MS
            };
            if h < DEFAULT_RESPONSE_TIMEOUT_MS {
                DEFAULT_RESPONSE_TIMEOUT_MS
            } else {
                h
            }
        },
    }
}

/// The ST25R95 driver.
///
/// `S` and `G` are the platform's SPI and GPIO; `F`, `R` and `P` are the
/// field, role and protocol type states, so that an operation is only
/// available in the states where it makes sense.
///
/// Besides the chip settings it tracks, the driver keeps, for the sake of
/// its contracts, the commands it has handed to the SPI implementation,
/// the responses it has read, the raw Echo answers it has read, the
/// deadlines with which it has waited for IRQ_OUT, the polls of the link,
/// the resets, flushes and IRQ_IN pulses, whether a command ever went out
/// with the SPI send-on-demand flag, and the exchanges that decide whether
/// an answer is pending.
pub struct St25r95<S, G, F, R, P> {
    spi: S,
    gpio: G,
    dac_ref: Option<u8>,
    dac_guard: u8,
    /// Host-side deadline for the response of the selected configuration.
    response_timeout: u32,
    /// Set while a command has been sent and its response not yet read.
    pending_response: Pending,
    field: PhantomData<F>,
    role: R,
    protocol: P,
    sent: Ghost<Seq<SentCommand>>,
    received: Ghost<Seq<Answer>>,
    echoed: Ghost<Seq<Option<Seq<u8>>>>,
    waited: Ghost<Seq<u32>>,
    expired: Ghost<bool>,
    polled: Ghost<Seq<(u8, bool)>>,
    controls: Ghost<Seq<LinkOp>>,
    sod: Ghost<bool>,
    spi_errors: Ghost<Seq<Error>>,
}

/// Logging an error grows the log by exactly that error.
proof fn lemma_spi_log<T>(log: Seq<Error>, o: Result<T>)
    ensures
        o is Ok ==> spi_log_after(log, o) == log,
        o matches Err(e) ==> grew_by_one(log, spi_log_after(log, o)) && spi_log_after(log, o).last() == e,
{
    if let Err(e) = o {
        assert(log.push(e).drop_last() =~= log);
    }
}

/// Across a call, the SPI implementation returned no error, or returned one
/// and it is the call's result `r`.
pub open spec fn spi_passed<T>(old: Seq<Error>, new: Seq<Error>, r: Result<T>) -> bool {
    new == old || (grew_by_one(old, new) && r == Err::<T, Error>(new.last()))
}

/// The error log `log` after a call into the SPI implementation with
/// outcome `o`.
pub open spec fn spi_log_after<T>(log: Seq<Error>, o: Result<T>) -> Seq<Error> {
    match o {
        Ok(_) => log,
        Err(e) => log.push(e),
    }
}

/// How the outcome `o` of one call into the SPI implementation is logged:
/// an error is appended to the error log, a success leaves it.
pub open spec fn spi_logged<T>(old: Seq<Error>, new: Seq<Error>, o: Result<T>) -> bool {
    match o {
        Ok(_) => new == old,
        Err(e) => grew_by_one(old, new) && new.last() == e,
    }
}

/// What happens on the link that decides whether an answer is awaited.
pub enum Exchange {
    /// A command handed to the SPI implementation; whether it took it.
    Command(bool),
    /// An answer read.
    Answer,
    /// A flush of the link; whether it succeeded.
    Flush(bool),
}

/// After the exchanges `e`, oldest first, a command the SPI implementation
/// took awaits its answer: no answer was read and no flush succeeded since.
pub open spec fn awaiting(e: Seq<Exchange>) -> bool
    decreases e.len(),
{
    if e.len() == 0 {
        false
    } else {
        match e.last() {
            Exchange::Command(true) => true,
            Exchange::Answer => false,
            Exchange::Flush(true) => false,
            _ => awaiting(e.drop_last()),
        }
    }
}

/// Whether an answer is awaited after one more exchange `x`, when
/// `before` said whether one was awaited before it.
pub open spec fn awaiting_after(before: bool, x: Exchange) -> bool {
    match x {
        Exchange::Command(true) => true,
        Exchange::Answer => false,
        Exchange::Flush(true) => false,
        _ => before,
    }
}

/// One more exchange moves [`awaiting`] as [`awaiting_after`] says.
proof fn lemma_awaiting_push(e: Seq<Exchange>, x: Exchange)
    ensures
        awaiting(e.push(x)) == awaiting_after(awaiting(e), x),
{
    assert(e.push(x).drop_last() =~= e);
}

/// The pending flag, with the exchanges that decide it.
struct Pending {
    flag: bool,
    exchanges: Ghost<Seq<Exchange>>,
}

impl Pending {
    #[verifier::type_invariant]
    spec fn consistent(self) -> bool {
        self.flag == awaiting(self.exchanges@)
    }

    /// The flag after one more exchange `x`.
    fn after(&self, x: Ghost<Exchange>, flag: bool) -> (r: Self)
        requires
            flag == awaiting_after(self.flag, x@),
        ensures
            r.flag == flag,
            r.exchanges@ == self.exchanges@.push(x@),
    {
        proof {
            use_type_invariant(self);
            lemma_awaiting_push(self.exchanges@, x@);
        }
        Pending { flag, exchanges: Ghost(self.exchanges@.push(x@)) }
    }
}

/// A control action on the link to the chip, other than a command.
pub enum LinkOp {
    /// A low pulse on IRQ_IN.
    IrqInPulse,
    /// An SPI reset; whether it succeeded.
    Reset(bool),
    /// An SPI flush; whether it succeeded.
    Flush(bool),
}

/// `new` extends the wait log `old` with waits whose deadline is `t`.
pub open spec fn waited_with(old: Seq<u32>, new: Seq<u32>, t: u32) -> bool {
    &&& old.len() <= new.len()
    &&& forall|i: int|
        0 <= i < new.len() ==> #[trigger] new[i] == if i < old.len() {
            old[i]
        } else {
            t
        }
}

/// `new` extends `old` by exactly one element.
pub open spec fn grew_by_one<T>(old: Seq<T>, new: Seq<T>) -> bool {
    new.len() == old.len() + 1 && new.drop_last() == old
}

/// How a command that expects `expected` bytes ended: either no answer was
/// read and the call failed, or one answer was read and the result is its
/// check.
pub open spec fn answer_checked(
    old: Seq<Answer>,
    new: Seq<Answer>,
    expected: usize,
    r: Result<()>,
) -> bool {
    ||| new == old && r is Err
    ||| grew_by_one(old, new) && r == check_data_len(new.last().0, new.last().1, expected)
}

/// What an Echo answer amounts to: only a bare Echo byte is a success. An
/// Echo byte followed by a frame reports the frame's status as an error, or
/// [`Error::EchoFailed`] when that status is a success; anything else,
/// including an answer longer than the buffer, fails too.
pub open spec fn echo_outcome(answer: Option<Seq<u8>>) -> Result<()> {
    match answer {
        None => Err(Error::EchoFailed),
        Some(bytes) => match parse_echo(bytes) {
            Err(e) => Err(e),
            Ok(None) => Ok(()),
            Ok(Some((code, data))) => match check_status(code) {
                Err(e) => Err(e),
                Ok(()) => Err(Error::EchoFailed),
            },
        },
    }
}

/// An Echo succeeds exactly on the single byte 0x55; an answer with a
/// frame after it never does, and its error is the frame's status when the
/// chip reported one.
pub proof fn lemma_echo_succeeds_only_on_bare_echo_byte(answer: Seq<u8>)
    ensures
        echo_outcome(Some(answer)) is Ok <==> answer == seq![0x55u8],
        echo_outcome(None) == Err::<(), Error>(Error::EchoFailed),
        answer.len() >= 3 && answer[0] == 0x55 && answer[2] + 3 == answer.len() && answer[1] == 0x85 ==> echo_outcome(Some(answer)) == Err::<(), Error>(Error::Hw(St25r95Error::UserStop)),
{
    if answer.len() == 1 && answer[0] == 0x55 {
        assert(answer =~= seq![0x55u8]);
    }
}

impl<S, G, F, R, P> St25r95<S, G, F, R, P> {
    /// A command was sent and its answer has not been read.
    pub closed spec fn is_pending(&self) -> bool {
        self.pending_response.flag
    }

    /// The commands handed to the SPI implementation, the answers read and
    /// the flushes, oldest first, as far as they decide the pending flag.
    pub closed spec fn exchange_log(&self) -> Seq<Exchange> {
        self.pending_response.exchanges@
    }

    /// Host-side deadline of the selected configuration, in milliseconds.
    pub closed spec fn deadline(&self) -> u32 {
        self.response_timeout
    }

    /// Calibrated reference of the tag detector.
    pub closed spec fn dac_ref_spec(&self) -> Option<u8> {
        self.dac_ref
    }

    /// Guard band around the tag detector reference.
    pub closed spec fn dac_guard_spec(&self) -> u8 {
        self.dac_guard
    }

    /// Commands handed to the SPI implementation, oldest first.
    pub closed spec fn sent_log(&self) -> Seq<SentCommand> {
        self.sent@
    }

    /// Responses read from the SPI implementation, oldest first.
    pub closed spec fn received_log(&self) -> Seq<Answer> {
        self.received@
    }

    /// Raw Echo answers read, oldest first; `None` stands for an answer the
    /// SPI implementation reported as longer than the buffer.
    pub closed spec fn echo_log(&self) -> Seq<Option<Seq<u8>>> {
        self.echoed@
    }

    /// Deadlines, in milliseconds, of the waits for IRQ_OUT, oldest first.
    pub closed spec fn wait_log(&self) -> Seq<u32> {
        self.waited@
    }

    /// The last wait for IRQ_OUT ran out before IRQ_OUT fell.
    pub closed spec fn wait_expired(&self) -> bool {
        self.expired@
    }

    /// The polls of the SPI link, oldest first: the flag bits asked for,
    /// and whether the link reported them.
    pub closed spec fn poll_log(&self) -> Seq<(u8, bool)> {
        self.polled@
    }

    /// The resets, flushes and IRQ_IN pulses, oldest first.
    pub closed spec fn link_log(&self) -> Seq<LinkOp> {
        self.controls@
    }

    /// The errors the SPI implementation returned, oldest first.
    pub closed spec fn spi_error_log(&self) -> Seq<Error> {
        self.spi_errors@
    }

    /// Some command went out with the SPI send-on-demand flag set.
    pub closed spec fn sod_used(&self) -> bool {
        self.sod@
    }

    /// The role type state value.
    pub closed spec fn role_spec(&self) -> R {
        self.role
    }

    /// The protocol type state value.
    pub closed spec fn protocol_spec(&self) -> P {
        self.protocol
    }

    /// No reset, flush or IRQ_IN pulse has happened, and the use of the
    /// send-on-demand flag is the same.
    pub open spec fn control_kept(&self, other: &Self) -> bool {
        &&& self.link_log() == other.link_log()
        &&& self.sod_used() == other.sod_used()
    }

    /// Deadline, calibration and type states are the same, and no control
    /// action has happened (see [`control_kept`](Self::control_kept)).
    pub open spec fn settings_kept(&self, other: &Self) -> bool {
        &&& self.deadline() == other.deadline()
        &&& self.dac_ref_spec() == other.dac_ref_spec()
        &&& self.dac_guard_spec() == other.dac_guard_spec()
        &&& self.role_spec() == other.role_spec()
        &&& self.protocol_spec() == other.protocol_spec()
        &&& self.control_kept(other)
    }

    /// The pending flag and every log are the same: nothing was sent,
    /// read, waited for, polled, reset, flushed or pulsed.
    pub open spec fn logs_kept(&self, other: &Self) -> bool {
        &&& self.is_pending() == other.is_pending()
        &&& self.sent_log() == other.sent_log()
        &&& self.received_log() == other.received_log()
        &&& self.echo_log() == other.echo_log()
        &&& self.wait_log() == other.wait_log()
        &&& self.wait_expired() == other.wait_expired()
        &&& self.poll_log() == other.poll_log()
        &&& self.exchange_log() == other.exchange_log()
        &&& self.spi_error_log() == other.spi_error_log()
        &&& self.control_kept(other)
    }

    /// Everything but the pending flag and the log of control actions is
    /// the same.
    pub open spec fn kept_but_link_log(&self, other: &Self) -> bool {
        &&& self.deadline() == other.deadline()
        &&& self.dac_ref_spec() == other.dac_ref_spec()
        &&& self.dac_guard_spec() == other.dac_guard_spec()
        &&& self.role_spec() == other.role_spec()
        &&& self.protocol_spec() == other.protocol_spec()
        &&& self.sod_used() == other.sod_used()
        &&& self.sent_log() == other.sent_log()
        &&& self.received_log() == other.received_log()
        &&& self.echo_log() == other.echo_log()
        &&& self.wait_log() == other.wait_log()
        &&& self.wait_expired() == other.wait_expired()
        &&& self.poll_log() == other.poll_log()
    }

    /// Nothing the contracts can see has changed.
    pub open spec fn untouched(&self, other: &Self) -> bool {
        &&& self.settings_kept(other)
        &&& self.logs_kept(other)
    }
}

/// How the commands of a run of Idles were followed up: `ns` commands
/// sent, `na` answers read, `nw` waits for IRQ_OUT, ending with the
/// pending flag `pending`. Each answered command was waited for once and
/// leaves nothing pending; a last command without answer either failed to
/// go out (no wait, nothing pending) or was waited for and is still
/// pending.
pub open spec fn calib_link(ns: int, na: int, nw: int, pending: bool) -> bool {
    &&& ns == na ==> nw == na && !pending
    &&& ns == na + 1 ==> (nw == na && !pending) || (nw == na + 1 && pending)
}

/// Since `old`, the driver waited for IRQ_OUT and its last wait ran out.
pub open spec fn timed_out<S, G, F, R, P>(old: &St25r95<S, G, F, R, P>, new: &St25r95<S, G, F, R, P>) -> bool {
    new.wait_log().len() > old.wait_log().len() && new.wait_expired()
}


impl<S: St25r95Spi, G: St25r95Gpio, F, R, P> St25r95<S, G, F, R, P> {
    /// Move to another type state, carrying the runtime state along.
    fn transition<F2, R2, P2>(self, role: R2, protocol: P2) -> (r: St25r95<S, G, F2, R2, P2>)
        ensures
            r.deadline() == self.deadline(),
            r.dac_ref_spec() == self.dac_ref_spec(),
            r.dac_guard_spec() == self.dac_guard_spec(),
            r.is_pending() == self.is_pending(),
            r.sent_log() == self.sent_log(),
            r.received_log() == self.received_log(),
            r.echo_log() == self.echo_log(),
            r.wait_log() == self.wait_log(),
            r.wait_expired() == self.wait_expired(),
            r.poll_log() == self.poll_log(),
            r.link_log() == self.link_log(),
            r.sod_used() == self.sod_used(),
            r.spi_error_log() == self.spi_error_log(),
            r.exchange_log() == self.exchange_log(),
            r.role_spec() == role,
            r.protocol_spec() == protocol,
    {
        St25r95 {
            spi: self.spi,
            gpio: self.gpio,
            dac_ref: self.dac_ref,
            dac_guard: self.dac_guard,
            response_timeout: self.response_timeout,
            pending_response: self.pending_response,
            field: PhantomData,
            role,
            protocol,
            sent: self.sent,
            received: self.received,
            echoed: self.echoed,
            waited: self.waited,
            expired: self.expired,
            polled: self.polled,
            controls: self.controls,
            sod: self.sod,
            spi_errors: self.spi_errors,
        }
    }

    /// Reset the chip through SPI and, when that worked, pulse IRQ_IN.
    fn reset(&mut self) -> (r: Result<()>)
        ensures
            final(self).kept_but_link_log(old(self)),
            final(self).is_pending() == old(self).is_pending(),
            final(self).link_log() == if r is Ok {
                old(self).link_log().push(LinkOp::Reset(true)).push(LinkOp::IrqInPulse)
            } else {
                old(self).link_log().push(LinkOp::Reset(false))
            },
            spi_logged(old(self).spi_error_log(), final(self).spi_error_log(), r),
    {
        let reset = self.spi.reset();
        proof {
            self.controls@ = self.controls@.push(LinkOp::Reset(reset is Ok));
            let before = self.spi_errors@;
            self.spi_errors@ = spi_log_after(before, reset);
            lemma_spi_log(before, reset);
        }
        match reset {
            Ok(()) => {},
            Err(e) => return Err(e),
        }
        // should be in Power-up state
        self.irq_in_pulse();
        Ok(())
    }

    /// A low pulse on IRQ_IN.
    fn irq_in_pulse(&mut self)
        ensures
            final(self).link_log() == old(self).link_log().push(LinkOp::IrqInPulse),
            final(self).kept_but_link_log(old(self)),
            final(self).is_pending() == old(self).is_pending(),
            final(self).spi_error_log() == old(self).spi_error_log(),
    {
        self.gpio.irq_in_pulse_low();
        proof {
            self.controls@ = self.controls@.push(LinkOp::IrqInPulse);
        }
    }

    /// Hand a command to the SPI implementation, unless an answer is still
    /// outstanding or the payload cannot be announced in one length byte.
    fn send_command(&mut self, cmd: Command, data: &[u8]) -> (r: Result<()>)
        ensures
            final(self).poll_log() == old(self).poll_log(),
            final(self).wait_expired() == old(self).wait_expired(),
            final(self).settings_kept(old(self)),
            final(self).wait_log() == old(self).wait_log(),
            final(self).received_log() == old(self).received_log(),
            final(self).echo_log() == old(self).echo_log(),
            old(self).is_pending() ==> r == Err::<(), Error>(Error::ResponseInProgress)
                && final(self).untouched(old(self)),
            !old(self).is_pending() && data@.len() > MAX_COMMAND_DATA_LEN ==> r == Err::<(), Error>(
                Error::InvalidDataLen(data@.len() as usize),
            ) && final(self).untouched(old(self)),
            !old(self).is_pending() && data@.len() <= MAX_COMMAND_DATA_LEN ==> final(self).sent_log()
                == old(self).sent_log().push((cmd, data@)) && final(self).is_pending() == (r is Ok)
                && spi_logged(old(self).spi_error_log(), final(self).spi_error_log(), r),
    {
        if self.pending_response.flag {
            return Err(Error::ResponseInProgress);
        }
        if data.len() > MAX_COMMAND_DATA_LEN {
            return Err(Error::InvalidDataLen(data.len()));
        }
        let sod = false;
        proof {
            self.sent@ = self.sent@.push((cmd, data@));
            self.sod@ = self.sod@ || sod;
        }
        let sent = self.spi.send_command(cmd, data, sod);
        proof {
            let before = self.spi_errors@;
            self.spi_errors@ = spi_log_after(before, sent);
            lemma_spi_log(before, sent);
        }
        let taken = sent.is_ok();
        let pending = self.pending_response.flag || taken;
        self.pending_response = self.pending_response.after(Ghost(Exchange::Command(taken)), pending);
        match sent {
            Ok(()) => {},
            Err(e) => return Err(e),
        }
        Ok(())
    }

    /// Read and classify the raw answer to an Echo command.
    fn read_echo(&mut self) -> (r: Result<EchoResponse>)
        ensures
            final(self).echo_log() == old(self).echo_log() ==> grew_by_one(old(self).spi_error_log(), final(self).spi_error_log()) && r == Err::<EchoResponse, Error>(final(self).spi_error_log().last()),
            final(self).echo_log() != old(self).echo_log() ==> final(self).spi_error_log() == old(self).spi_error_log(),
            final(self).poll_log() == old(self).poll_log(),
            final(self).wait_expired() == old(self).wait_expired(),
            final(self).settings_kept(old(self)),
            final(self).wait_log() == old(self).wait_log(),
            final(self).sent_log() == old(self).sent_log(),
            final(self).received_log() == old(self).received_log(),
            final(self).echo_log() == old(self).echo_log() ==> r is Err && final(self).is_pending()
                == old(self).is_pending(),
            final(self).echo_log() == old(self).echo_log() || grew_by_one(
                old(self).echo_log(),
                final(self).echo_log(),
            ),
            grew_by_one(old(self).echo_log(), final(self).echo_log()) ==> !final(self).is_pending()
                && match final(self).echo_log().last() {
                None => r == Err::<EchoResponse, Error>(Error::EchoFailed),
                Some(bytes) => {
                    &&& r matches Ok(EchoResponse::Echo) ==> parse_echo(bytes) == Ok::<
                        Option<Answer>,
                        Error,
                    >(None)
                    &&& r matches Ok(EchoResponse::ListenCancelled(resp)) ==> parse_echo(bytes)
                        == Ok::<Option<Answer>, Error>(Some((resp.code, resp.data@)))
                    &&& r matches Err(e) ==> parse_echo(bytes) == Err::<Option<Answer>, Error>(e)
                },
            },
    {
        let mut buf = [0u8; ECHO_RESPONSE_MAX_LEN];
        let read = self.spi.read_echo(&mut buf);
        proof {
            let before = self.spi_errors@;
            self.spi_errors@ = spi_log_after(before, read);
            lemma_spi_log(before, read);
        }
        let len = match read {
            Ok(len) => len,
            Err(e) => return Err(e),
        };
        self.pending_response = self.pending_response.after(Ghost(Exchange::Answer), false);
        // An implementation that reports more bytes than it could have written
        // is not trustworthy enough to parse.
        if len > ECHO_RESPONSE_MAX_LEN {
            proof {
                self.echoed@ = self.echoed@.push(None);
                assert(self.echoed@.drop_last() =~= old(self).echoed@);
            }
            return Err(Error::EchoFailed);
        }
        let read = vstd::slice::slice_subrange(buf.as_slice(), 0, len);
        proof {
            self.echoed@ = self.echoed@.push(Some(read@));
            assert(self.echoed@.drop_last() =~= old(self).echoed@);
        }
        EchoResponse::try_from(read)
    }

    fn poll_irq_out(&mut self, timeout: u32) -> (r: Result<()>)
        ensures
            final(self).spi_error_log() == old(self).spi_error_log(),
            final(self).poll_log() == old(self).poll_log(),
            final(self).settings_kept(old(self)),
            final(self).is_pending() == old(self).is_pending(),
            final(self).sent_log() == old(self).sent_log(),
            final(self).received_log() == old(self).received_log(),
            final(self).echo_log() == old(self).echo_log(),
            final(self).wait_log() == old(self).wait_log().push(timeout),
            final(self).wait_expired() == (r is Err),
            r is Ok || r == Err::<(), Error>(Error::ResponseInProgress),
    {
        proof {
            self.waited@ = self.waited@.push(timeout);
        }
        match self.gpio.wait_irq_out_falling_edge(timeout) {
            Ok(()) => {
                proof {
                    self.expired@ = false;
                }
                Ok(())
            },
            Err(_) => {
                proof {
                    self.expired@ = true;
                }
                Err(Error::ResponseInProgress)
            },
        }
    }

    /// Read a framed response and mark the outstanding command as answered.
    fn read_data(&mut self) -> (r: Result<ReadResponse>)
        ensures
            final(self).wait_expired() == old(self).wait_expired(),
            final(self).settings_kept(old(self)),
            final(self).wait_log() == old(self).wait_log(),
            final(self).sent_log() == old(self).sent_log(),
            final(self).echo_log() == old(self).echo_log(),
            r matches Ok(resp) ==> final(self).received_log() == old(self).received_log().push(
                (resp.code, resp.data@),
            ) && !final(self).is_pending(),
            r is Err ==> final(self).received_log() == old(self).received_log()
                && final(self).is_pending() == old(self).is_pending(),
            spi_logged(old(self).spi_error_log(), final(self).spi_error_log(), r),
    {
        let read = self.spi.read_data();
        proof {
            let before = self.spi_errors@;
            self.spi_errors@ = spi_log_after(before, read);
            lemma_spi_log(before, read);
        }
        let response = match read {
            Ok(response) => response,
            Err(e) => return Err(e),
        };
        self.pending_response = self.pending_response.after(Ghost(Exchange::Answer), false);
        proof {
            self.received@ = self.received@.push((response.code, response.data@));
        }
        Ok(response)
    }

    fn read_with_timeout(&mut self, timeout: u32) -> (r: Result<ReadResponse>)
        ensures
            final(self).wait_expired() ==> r == Err::<ReadResponse, Error>(Error::ResponseInProgress),
            final(self).settings_kept(old(self)),
            final(self).wait_log() == old(self).wait_log().push(timeout),
            final(self).sent_log() == old(self).sent_log(),
            final(self).echo_log() == old(self).echo_log(),
            r matches Ok(resp) ==> final(self).received_log() == old(self).received_log().push(
                (resp.code, resp.data@),
            ) && !final(self).is_pending(),
            r is Err ==> final(self).received_log() == old(self).received_log()
                && final(self).is_pending() == old(self).is_pending(),
    {
        match self.poll_irq_out(timeout) {
            Ok(()) => {},
            Err(e) => return Err(e),
        }
        self.read_data()
    }

    /// Send a command and read its answer within the deadline of the
    /// selected configuration.
    fn transceive(&mut self, cmd: Command, data: &[u8]) -> (r: Result<ReadResponse>)
        ensures
            timed_out(old(self), final(self)) ==> final(self).is_pending() && r == Err::<ReadResponse, Error>(Error::ResponseInProgress),
            final(self).settings_kept(old(self)),
            waited_with(old(self).wait_log(), final(self).wait_log(), old(self).deadline()),
            final(self).echo_log() == old(self).echo_log(),
            old(self).is_pending() ==> r == Err::<ReadResponse, Error>(Error::ResponseInProgress)
                && final(self).untouched(old(self)),
            !old(self).is_pending() && data@.len() > MAX_COMMAND_DATA_LEN ==> r == Err::<
                ReadResponse,
                Error,
            >(Error::InvalidDataLen(data@.len() as usize)) && final(self).untouched(old(self)),
            !old(self).is_pending() && data@.len() <= MAX_COMMAND_DATA_LEN ==> final(self).sent_log()
                == old(self).sent_log().push((cmd, data@)),
            r matches Ok(resp) ==> final(self).received_log() == old(self).received_log().push(
                (resp.code, resp.data@),
            ) && !final(self).is_pending(),
            r is Err ==> final(self).received_log() == old(self).received_log(),
    {
        match self.send_command(cmd, data) {
            Ok(()) => {},
            Err(e) => return Err(e),
        }
        let timeout = self.response_timeout;
        self.read_with_timeout(timeout)
    }

    /// Send a command, read its answer and check that it is a success with
    /// `expected` payload bytes.
    fn exchange(&mut self, cmd: Command, data: &[u8], expected: usize) -> (r: Result<
        ReadResponse,
    >)
        ensures
            timed_out(old(self), final(self)) ==> final(self).is_pending() && r == Err::<ReadResponse, Error>(Error::ResponseInProgress),
            final(self).settings_kept(old(self)),
            waited_with(old(self).wait_log(), final(self).wait_log(), old(self).deadline()),
            final(self).echo_log() == old(self).echo_log(),
            old(self).is_pending() ==> r == Err::<ReadResponse, Error>(Error::ResponseInProgress)
                && final(self).untouched(old(self)),
            !old(self).is_pending() && data@.len() > MAX_COMMAND_DATA_LEN ==> r == Err::<
                ReadResponse,
                Error,
            >(Error::InvalidDataLen(data@.len() as usize)) && final(self).untouched(old(self)),
            !old(self).is_pending() && data@.len() <= MAX_COMMAND_DATA_LEN ==> final(self).sent_log()
                == old(self).sent_log().push((cmd, data@)),
            final(self).received_log() == old(self).received_log() || grew_by_one(
                old(self).received_log(),
                final(self).received_log(),
            ),
            final(self).received_log() == old(self).received_log() ==> r is Err,
            grew_by_one(old(self).received_log(), final(self).received_log()) ==> {
                let a = final(self).received_log().last();
                &&& !final(self).is_pending()
                &&& r matches Ok(resp) ==> (resp.code, resp.data@) == a && check_data_len(
                    a.0,
                    a.1,
                    expected,
                ) is Ok
                &&& r matches Err(e) ==> check_data_len(a.0, a.1, expected) == Err::<(), Error>(e)
            },
    {
        let response = match self.transceive(cmd, data) {
            Ok(response) => response,
            Err(e) => return Err(e),
        };
        proof {
            assert(self.received@.drop_last() =~= old(self).received@);
        }
        match response.expect_data_len(expected) {
            Ok(()) => Ok(response),
            Err(e) => Err(e),
        }
    }
}


/// The response a field poll answers: a success with no payload is
/// `false`, with one byte the FieldDet flag (bit 0), anything longer an
/// error.
pub open spec fn field_answer(a: Answer) -> Result<bool> {
    if check_status(a.0) is Err {
        Err(check_status(a.0)->Err_0)
    } else if a.1.len() == 0 {
        Ok(false)
    } else if a.1.len() == 1 {
        Ok(a.1[0] % 2 == 1)
    } else {
        Err(Error::InvalidResponseLength { expected: 1, actual: a.1.len() as usize })
    }
}

/// The payload of a PollField command.
pub open spec fn poll_field_payload(wff: Option<WaitForField>) -> Seq<u8> {
    match wff {
        None => Seq::empty(),
        Some(w) => seq![if w.apparance { 1u8 } else { 0u8 }, w.presc, w.timer],
    }
}

/// The wake-up sources an Idle answer reports: a success with one byte,
/// decoded as a wake-up byte.
pub open spec fn wake_answer(a: Answer) -> Result<WakeUpSource> {
    match check_data_len(a.0, a.1, 1) {
        Err(e) => Err(e),
        Ok(()) => Ok(wus_of(a.1[0])),
    }
}

/// The Idle parameters actually sent: when `check` is set and tag detection
/// is a wake-up source, the comparator thresholds are placed `guard` around
/// the calibrated reference, which must exist and leave room for them.
pub open spec fn idle_request(p: IdleParams, check: bool, dac_ref: Option<u8>, guard: u8) -> Result<
    IdleParams,
> {
    if check && p.wus.tag_detection {
        match dac_ref {
            None => Err(Error::CalibrationNeeded),
            Some(r) => if r + guard > 255 || r - guard < 0 {
                Err(Error::TagDetector { dac_ref: r, dac_guard: guard })
            } else {
                Ok(
                    IdleParams {
                        dac_data: DacData { low: (r - guard) as u8, high: (r + guard) as u8 },
                        ..p
                    },
                )
            },
        }
    } else {
        Ok(p)
    }
}

/// The payload of a WrReg command: address, auto-increment flag, the index
/// for an indexed register, then the value when there is one.
pub open spec fn write_register_payload(
    write_addr: u8,
    inc_addr: bool,
    has_index: bool,
    index: u8,
    value: Option<u8>,
) -> Seq<u8> {
    let head = seq![write_addr, if inc_addr { 1u8 } else { 0u8 }];
    let head = if has_index {
        head.push(index)
    } else {
        head
    };
    match value {
        Some(v) => head.push(v),
        None => head,
    }
}

/// The payload of an RdReg command for a register address.
pub open spec fn read_register_payload(read_addr: u8) -> Seq<u8> {
    seq![read_addr, 0x01u8, 0x00u8]
}

/// The WrReg payload that selects the index of an indexed register before a
/// read, if the register is indexed.
pub(crate) open spec fn register_select<Rg: Register>(reg: &Rg) -> Option<Seq<u8>> {
    if reg.has_index_spec() {
        Some(
            write_register_payload(
                reg.write_addr_spec(),
                false,
                true,
                reg.index_confirmation_spec(),
                None,
            ),
        )
    } else {
        None
    }
}

/// What a register read answer amounts to: a success with one byte,
/// decoded by `decode`.
pub open spec fn register_answer<T>(a: Answer, decode: spec_fn(u8) -> Result<T>) -> Result<T> {
    match check_data_len(a.0, a.1, 1) {
        Err(e) => Err(e),
        Ok(_) => decode(a.1[0]),
    }
}

/// The command `cmd` was sent and at most one answer read: either none and
/// the result is an error, or one and the result is what `outcome` makes
/// of it.
pub open spec fn one_exchange<T>(
    s0: Seq<SentCommand>,
    s1: Seq<SentCommand>,
    a0: Seq<Answer>,
    a1: Seq<Answer>,
    cmd: SentCommand,
    outcome: spec_fn(Answer) -> Result<T>,
    r: Result<T>,
) -> bool {
    &&& s1 == s0.push(cmd)
    &&& (a1 == a0 && r is Err || grew_by_one(a0, a1) && r == outcome(a1.last()))
}

/// A register read went from logs `s0`, `a0` to `s1`, `a1` and ended in
/// `r`: for an indexed register the WrReg that selects it is sent first,
/// and a failure there ends the read; then the RdReg is sent, and its
/// answer is decoded by `decode` (see [`register_answer`]).
pub open spec fn register_read<T>(
    s0: Seq<SentCommand>,
    s1: Seq<SentCommand>,
    a0: Seq<Answer>,
    a1: Seq<Answer>,
    select: Option<Seq<u8>>,
    read: Seq<u8>,
    decode: spec_fn(u8) -> Result<T>,
    r: Result<T>,
) -> bool {
    let rd = (Command::RdReg, read);
    let answer = |a: Answer| register_answer(a, decode);
    match select {
        None => one_exchange(s0, s1, a0, a1, rd, answer, r),
        Some(sel) => {
            let wr = (Command::WrReg, sel);
            ||| s1 == s0.push(wr) && r is Err && (a1 == a0 || grew_by_one(a0, a1) && check_data_len(
                a1.last().0,
                a1.last().1,
                0,
            ) == Err::<(), Error>(r->Err_0))
            ||| a1.len() > a0.len() && check_data_len(
                a1[a0.len() as int].0,
                a1[a0.len() as int].1,
                0,
            ) is Ok && one_exchange(s0.push(wr), s1, a0.push(a1[a0.len() as int]), a1, rd, answer, r)
        },
    }
}

/// A register read that returns the byte read, seen through a decoding of
/// that byte.
proof fn lemma_register_read_decode<T>(
    s0: Seq<SentCommand>,
    s1: Seq<SentCommand>,
    a0: Seq<Answer>,
    a1: Seq<Answer>,
    select: Option<Seq<u8>>,
    read: Seq<u8>,
    decode: spec_fn(u8) -> Result<T>,
    r: Result<u8>,
    r2: Result<T>,
)
    requires
        register_read(s0, s1, a0, a1, select, read, |v: u8| Ok::<u8, Error>(v), r),
        r matches Ok(v) ==> r2 == decode(v),
        r matches Err(e) ==> r2 == Err::<T, Error>(e),
    ensures
        register_read(s0, s1, a0, a1, select, read, decode, r2),
{
}

impl<S: St25r95Spi, G: St25r95Gpio, F, R, P> St25r95<S, G, F, R, P> {
    /// Host-side deadline, in milliseconds, for the response of a command.
    ///
    /// Derived from the frame timeout of the selected protocol plus
    /// [`RESPONSE_TIMEOUT_MARGIN_MS`], and never shorter than
    /// [`DEFAULT_RESPONSE_TIMEOUT_MS`].
    pub fn response_timeout(&self) -> (r: u32)
        ensures
            r == self.deadline(),
    {
        self.response_timeout
    }

    /// Override the host-side deadline for the response of a command.
    ///
    /// Selecting a protocol recomputes the deadline, so call this after
    /// `protocol_select_*`.
    pub fn set_response_timeout(&mut self, timeout: u32)
        ensures
            final(self).deadline() == timeout,
            final(self).dac_ref_spec() == old(self).dac_ref_spec(),
            final(self).dac_guard_spec() == old(self).dac_guard_spec(),
            final(self).role_spec() == old(self).role_spec(),
            final(self).protocol_spec() == old(self).protocol_spec(),
            final(self).logs_kept(old(self)),
    {
        self.response_timeout = timeout;
    }

    /// The calibrated reference of the tag detector, if any.
    pub fn dac_ref(&self) -> (r: Option<u8>)
        ensures
            r == self.dac_ref_spec(),
    {
        self.dac_ref
    }

    /// Set the reference of the tag detector, such as one kept from an
    /// earlier [`calibrate_tag_detector`](Self::calibrate_tag_detector).
    pub fn set_dac_ref(&mut self, dac_ref: Option<u8>)
        ensures
            final(self).dac_ref_spec() == dac_ref,
            final(self).deadline() == old(self).deadline(),
            final(self).dac_guard_spec() == old(self).dac_guard_spec(),
            final(self).role_spec() == old(self).role_spec(),
            final(self).protocol_spec() == old(self).protocol_spec(),
            final(self).logs_kept(old(self)),
    {
        self.dac_ref = dac_ref;
    }

    /// Whether a command has been sent whose response has not been read.
    ///
    /// The flag is set exactly when a command the SPI implementation took
    /// still awaits its answer: no answer has been read and no flush has
    /// succeeded since (see [`awaiting`]).
    pub fn is_response_pending(&self) -> (r: bool)
        ensures
            r == self.is_pending(),
            r == awaiting(self.exchange_log()),
    {
        proof {
            use_type_invariant(&self.pending_response);
        }
        self.pending_response.flag
    }

    /// Keep waiting, up to `timeout` milliseconds, for the response of the
    /// command already in flight; no new command is sent.
    pub fn poll_pending_response(&mut self, timeout: u32) -> (r: Result<ReadResponse>)
        ensures
            timed_out(old(self), final(self)) ==> final(self).is_pending() == old(self).is_pending() && r == Err::<ReadResponse, Error>(Error::ResponseInProgress),
            final(self).wait_log() == old(self).wait_log().push(timeout),
            final(self).settings_kept(old(self)),
            final(self).sent_log() == old(self).sent_log(),
            final(self).echo_log() == old(self).echo_log(),
            r matches Ok(resp) ==> final(self).received_log() == old(self).received_log().push(
                (resp.code, resp.data@),
            ) && !final(self).is_pending(),
            r is Err ==> final(self).received_log() == old(self).received_log()
                && final(self).is_pending() == old(self).is_pending(),
    {
        self.read_with_timeout(timeout)
    }

    /// Give up a pending response: flush the SPI link once and, when that
    /// worked, clear the pending state; a failed flush returns its own
    /// error. The answer to the abandoned command is lost; no command is
    /// sent.
    pub fn discard_pending_response(&mut self) -> (r: Result<()>)
        ensures
            final(self).kept_but_link_log(old(self)),
            final(self).link_log() == old(self).link_log().push(LinkOp::Flush(r is Ok)),
            spi_logged(old(self).spi_error_log(), final(self).spi_error_log(), r),
            r is Ok ==> !final(self).is_pending(),
            r is Err ==> final(self).is_pending() == old(self).is_pending(),
    {
        let flushed = self.spi.flush();
        proof {
            self.controls@ = self.controls@.push(LinkOp::Flush(flushed is Ok));
            let before = self.spi_errors@;
            self.spi_errors@ = spi_log_after(before, flushed);
            lemma_spi_log(before, flushed);
        }
        let ok = flushed.is_ok();
        let pending = self.pending_response.flag && !ok;
        self.pending_response = self.pending_response.after(Ghost(Exchange::Flush(ok)), pending);
        match flushed {
            Ok(()) => {},
            Err(e) => return Err(e),
        }
        Ok(())
    }

    /// The IDN command: the chip name (13 bytes) and the ROM CRC (2 bytes,
    /// most significant first).
    pub fn idn(&mut self) -> (r: Result<(ChipName, u16)>)
        ensures
            waited_with(old(self).wait_log(), final(self).wait_log(), old(self).deadline()),
            final(self).settings_kept(old(self)),
            final(self).echo_log() == old(self).echo_log(),
            old(self).is_pending() ==> r == Err::<(ChipName, u16), Error>(
                Error::ResponseInProgress,
            ) && final(self).untouched(old(self)),
            !old(self).is_pending() ==> final(self).sent_log() == old(self).sent_log().push(
                (Command::Idn, Seq::<u8>::empty()),
            ),
            final(self).received_log() == old(self).received_log() || grew_by_one(
                old(self).received_log(),
                final(self).received_log(),
            ),
            final(self).received_log() == old(self).received_log() ==> r is Err,
            grew_by_one(old(self).received_log(), final(self).received_log()) ==> {
                let a = final(self).received_log().last();
                &&& !final(self).is_pending()
                &&& check_data_len(a.0, a.1, 15) matches Err(e) ==> r == Err::<
                    (ChipName, u16),
                    Error,
                >(e)
                &&& check_data_len(a.0, a.1, 15) is Ok ==> (r is Ok <==> utf8_valid(a.1.take(13)))
                &&& r matches Ok((name, crc)) ==> chip_name_bytes(name) == a.1.take(13) && crc
                    == a.1[13] * 256 + a.1[14]
            },
    {
        let empty: [u8; 0] = [];
        proof {
            assert(empty@ =~= Seq::<u8>::empty());
        }
        let response = match self.exchange(Command::Idn, empty.as_slice(), 15) {
            Ok(response) => response,
            Err(e) => return Err(e),
        };
        let data = response.data.as_slice();
        let name_bytes = vstd::slice::slice_subrange(data, 0, 13);
        let name = match ChipName::from_utf8(name_bytes) {
            Ok(name) => name,
            Err(e) => return Err(Error::UTF8(e)),
        };
        // §4.1.1 SPI communication is MSB first.
        let rom_crc: u16 = data[13] as u16 * 256 + data[14] as u16;
        Ok((name, rom_crc))
    }

    /// Send ProtocolSelect and, once the chip acknowledges it, adopt the
    /// host deadline that follows from the configured frame timeout.
    fn select_protocol<PP: ProtocolParams>(&mut self, protocol: Protocol, params: PP) -> (r: Result<
        (),
    >)
        ensures
            waited_with(old(self).wait_log(), final(self).wait_log(), old(self).deadline()),
            final(self).dac_ref_spec() == old(self).dac_ref_spec(),
            final(self).dac_guard_spec() == old(self).dac_guard_spec(),
            final(self).role_spec() == old(self).role_spec(),
            final(self).protocol_spec() == old(self).protocol_spec(),
            final(self).echo_log() == old(self).echo_log(),
            final(self).control_kept(old(self)),
            old(self).is_pending() ==> r == Err::<(), Error>(Error::ResponseInProgress)
                && final(self).untouched(old(self)),
            !old(self).is_pending() ==> final(self).sent_log() == old(self).sent_log().push(
                (
                    Command::ProtocolSelect,
                    seq![protocol::protocol_code(protocol)] + params.data_spec().0.take(
                        params.data_spec().1 as int,
                    ),
                ),
            ),
            answer_checked(old(self).received_log(), final(self).received_log(), 0, r),
            r is Ok ==> final(self).deadline() == host_deadline(params.timeout_spec())
                && !final(self).is_pending(),
            r is Err ==> final(self).deadline() == old(self).deadline(),
    {
        // The chip may legitimately spend the configured frame timeout on a
        // single exchange, so the host deadline follows it.
        let response_timeout = host_timeout_ms(params.timeout_us());
        let ghost spec_data = params.data_spec();
        let (d, data_len) = params.data();
        let data = [protocol.code(), d[0], d[1], d[2], d[3], d[4], d[5], d[6], d[7]];
        let payload = vstd::slice::slice_subrange(data.as_slice(), 0, 1 + data_len);
        proof {
            assert(payload@ =~= seq![protocol::protocol_code(protocol)] + spec_data.0.take(
                spec_data.1 as int,
            ));
        }
        match self.exchange(Command::ProtocolSelect, payload, 0) {
            Ok(_) => {},
            Err(e) => return Err(e),
        }
        self.response_timeout = response_timeout;
        Ok(())
    }
}


/// `new` is `old` after a ProtocolSelect with `protocol` and parameter bytes
/// `data` was sent and acknowledged: the deadline follows `timeout`.
pub open spec fn selected<S, G, F, R, P, F2, R2, P2>(
    old: &St25r95<S, G, F, R, P>,
    new: &St25r95<S, G, F2, R2, P2>,
    protocol: Protocol,
    data: (Seq<u8>, usize),
    timeout: Option<u64>,
) -> bool {
    &&& new.dac_ref_spec() == old.dac_ref_spec()
    &&& new.dac_guard_spec() == old.dac_guard_spec()
    &&& new.echo_log() == old.echo_log()
    &&& new.link_log() == old.link_log()
    &&& new.sod_used() == old.sod_used()
    &&& waited_with(old.wait_log(), new.wait_log(), old.deadline())
    &&& new.sent_log() == old.sent_log().push(
        (
            Command::ProtocolSelect,
            seq![protocol::protocol_code(protocol)] + data.0.take(data.1 as int),
        ),
    )
    &&& grew_by_one(old.received_log(), new.received_log())
    &&& check_data_len(new.received_log().last().0, new.received_log().last().1, 0) is Ok
    &&& new.deadline() == host_deadline(timeout)
    &&& !new.is_pending()
}

/// Once a protocol is selected with a frame timeout of `us` microseconds,
/// the host waits for the answer to a command at least the default
/// deadline and longer than the frame timeout itself, so it never gives up
/// on a frame the chip may still be serving.
pub proof fn lemma_selected_deadline_covers_frame_timeout<S, G, F, R, P, F2, R2, P2>(
    old: &St25r95<S, G, F, R, P>,
    new: &St25r95<S, G, F2, R2, P2>,
    protocol: Protocol,
    data: (Seq<u8>, usize),
    us: u64,
)
    requires
        selected(old, new, protocol, data, Some(us)),
        us / 1000 + 1 + RESPONSE_TIMEOUT_MARGIN_MS <= u32::MAX,
    ensures
        new.deadline() >= DEFAULT_RESPONSE_TIMEOUT_MS,
        new.deadline() * 1000 > us,
{
    lemma_host_deadline_covers_device_timeout(us);
}

impl<S: St25r95Spi, G: St25r95Gpio, F, R, P> St25r95<S, G, F, R, P> {
    /// Select ISO/IEC 15693 and turn the field on, in reader mode.
    pub fn protocol_select_iso15693(self, params: iso15693::reader::Parameters) -> (r: Result<
        St25r95<S, G, FieldOn, Reader, Iso15693>,
    >)
        ensures
            self.is_pending() ==> r is Err && r->Err_0 == Error::ResponseInProgress,
            r matches Ok(d) ==> selected(
                &self,
                &d,
                Protocol::Iso15693,
                params.select_data(),
                params.frame_timeout_us(),
            ) && d.protocol_spec().modulation_spec() == params.modulation_spec(),
    {
        let mut this = self;
        let modulation = params.get_modulation();
        match this.select_protocol(Protocol::Iso15693, params) {
            Ok(()) => {},
            Err(e) => return Err(e),
        }
        Ok(this.transition(Reader, Iso15693(modulation)))
    }

    /// Select ISO/IEC 14443-A and turn the field on, in reader mode.
    pub fn protocol_select_iso14443a(self, params: iso14443a::reader::Parameters) -> (r: Result<
        St25r95<S, G, FieldOn, Reader, Iso14443A>,
    >)
        ensures
            self.is_pending() ==> r is Err && r->Err_0 == Error::ResponseInProgress,
            r matches Ok(d) ==> selected(
                &self,
                &d,
                Protocol::Iso14443A,
                params.select_data(),
                params.frame_timeout_us(),
            ),
    {
        let mut this = self;
        match this.select_protocol(Protocol::Iso14443A, params) {
            Ok(()) => {},
            Err(e) => return Err(e),
        }
        Ok(this.transition(Reader, Iso14443A))
    }

    /// Select ISO/IEC 14443-B and turn the field on, in reader mode.
    pub fn protocol_select_iso14443b(self, params: iso14443b::reader::Parameters) -> (r: Result<
        St25r95<S, G, FieldOn, Reader, Iso14443B>,
    >)
        ensures
            self.is_pending() ==> r is Err && r->Err_0 == Error::ResponseInProgress,
            r matches Ok(d) ==> selected(
                &self,
                &d,
                Protocol::Iso14443B,
                params.select_data(),
                params.frame_timeout_us(),
            ),
    {
        let mut this = self;
        match this.select_protocol(Protocol::Iso14443B, params) {
            Ok(()) => {},
            Err(e) => return Err(e),
        }
        Ok(this.transition(Reader, Iso14443B))
    }

    /// Select FeliCa and turn the field on, in reader mode.
    pub fn protocol_select_felica(self, params: felica::reader::Parameters) -> (r: Result<
        St25r95<S, G, FieldOn, Reader, FeliCa>,
    >)
        ensures
            self.is_pending() ==> r is Err && r->Err_0 == Error::ResponseInProgress,
            r matches Ok(d) ==> selected(
                &self,
                &d,
                Protocol::FeliCa,
                params.select_data(),
                params.frame_timeout_us(),
            ),
    {
        let mut this = self;
        match this.select_protocol(Protocol::FeliCa, params) {
            Ok(()) => {},
            Err(e) => return Err(e),
        }
        Ok(this.transition(Reader, FeliCa))
    }

    /// Select ISO/IEC 14443-A card emulation; the chip starts outside
    /// Listen mode.
    pub fn protocol_select_ce_iso14443a(
        self,
        params: iso14443a::card_emulation::Parameters,
    ) -> (r: Result<St25r95<S, G, FieldOn, CardEmulation, Iso14443A>>)
        ensures
            self.is_pending() ==> r is Err && r->Err_0 == Error::ResponseInProgress,
            r matches Ok(d) ==> selected(
                &self,
                &d,
                Protocol::CardEmulationIso14443A,
                params.select_data(),
                params.frame_timeout_us(),
            ) && !d.role_spec().listening(),
    {
        let mut this = self;
        match this.select_protocol(Protocol::CardEmulationIso14443A, params) {
            Ok(()) => {},
            Err(e) => return Err(e),
        }
        Ok(this.transition(CardEmulation(false), Iso14443A))
    }

    /// PollField: whether an external field is detected, optionally after
    /// waiting for it to appear or disappear; see [`field_answer`].
    pub fn poll_field(&mut self, wff: Option<WaitForField>) -> (r: Result<bool>)
        ensures
            waited_with(old(self).wait_log(), final(self).wait_log(), old(self).deadline()),
            final(self).settings_kept(old(self)),
            final(self).echo_log() == old(self).echo_log(),
            old(self).is_pending() ==> r == Err::<bool, Error>(Error::ResponseInProgress)
                && final(self).untouched(old(self)),
            !old(self).is_pending() ==> final(self).sent_log() == old(self).sent_log().push(
                (Command::PollField, poll_field_payload(wff)),
            ),
            final(self).received_log() == old(self).received_log() || grew_by_one(
                old(self).received_log(),
                final(self).received_log(),
            ),
            final(self).received_log() == old(self).received_log() ==> r is Err,
            grew_by_one(old(self).received_log(), final(self).received_log()) ==> r == field_answer(
                final(self).received_log().last(),
            ) && !final(self).is_pending(),
    {
        let response = match wff {
            None => {
                let empty: [u8; 0] = [];
                proof {
                    assert(empty@ =~= poll_field_payload(wff));
                }
                self.transceive(Command::PollField, empty.as_slice())
            },
            Some(WaitForField { apparance, presc, timer }) => {
                let a: u8 = if apparance {
                    1
                } else {
                    0
                };
                let payload = [a, presc, timer];
                proof {
                    assert(payload@ =~= poll_field_payload(wff));
                }
                self.transceive(Command::PollField, payload.as_slice())
            },
        };
        let response = match response {
            Ok(response) => response,
            Err(e) => return Err(e),
        };
        proof {
            assert(self.received@.drop_last() =~= old(self).received@);
        }
        match response.ensure_ok() {
            Ok(()) => {},
            Err(e) => return Err(e),
        }
        let len = response.data.len();
        if len == 0 {
            Ok(false)
        } else if len == 1 {
            Ok(response.data.as_slice()[0] % 2 == 1)
        } else {
            Err(Error::InvalidResponseLength { expected: 1, actual: len })
        }
    }
}


impl<S: St25r95Spi, G: St25r95Gpio, F, R, P> St25r95<S, G, F, R, P> {
    fn _idle_send(&mut self, params: IdleParams, check_params: bool) -> (r: Result<()>)
        ensures
            final(self).wait_expired() == old(self).wait_expired(),
            final(self).wait_log() == old(self).wait_log(),
            final(self).settings_kept(old(self)),
            final(self).received_log() == old(self).received_log(),
            final(self).echo_log() == old(self).echo_log(),
            idle_request(
                params,
                check_params,
                old(self).dac_ref_spec(),
                old(self).dac_guard_spec(),
            ) matches Err(e) ==> r == Err::<(), Error>(e) && final(self).untouched(old(self)),
            idle_request(
                params,
                check_params,
                old(self).dac_ref_spec(),
                old(self).dac_guard_spec(),
            ) matches Ok(p) ==> {
                &&& old(self).is_pending() ==> r == Err::<(), Error>(Error::ResponseInProgress)
                    && final(self).untouched(old(self))
                &&& !old(self).is_pending() ==> final(self).sent_log() == old(self).sent_log().push(
                    (Command::Idle, idle_payload(p)),
                ) && final(self).is_pending() == (r is Ok)
            },
            spi_passed(old(self).spi_error_log(), final(self).spi_error_log(), r),
            idle_request(params, check_params, old(self).dac_ref_spec(), old(self).dac_guard_spec()) is Ok && !old(self).is_pending() && final(self).spi_error_log() == old(self).spi_error_log() ==> r is Ok,
    {
        let mut params = params;
        if check_params && params.wus.tag_detection {
            match self.dac_ref {
                None => return Err(Error::CalibrationNeeded),
                Some(dac_ref) => {
                    let dac_guard = self.dac_guard;
                    params.dac_data.high = match dac_ref.checked_add(dac_guard) {
                        Some(high) => high,
                        None => return Err(Error::TagDetector { dac_ref, dac_guard }),
                    };
                    params.dac_data.low = match dac_ref.checked_sub(dac_guard) {
                        Some(low) => low,
                        None => return Err(Error::TagDetector { dac_ref, dac_guard }),
                    };
                },
            }
        }
        let data = params.data();
        self.send_command(Command::Idle, data.as_slice())
    }

    fn _ack_idle(&mut self) -> (r: Result<WakeUpSource>)
        ensures
            final(self).received_log() == old(self).received_log() ==> grew_by_one(old(self).spi_error_log(), final(self).spi_error_log()) && r == Err::<WakeUpSource, Error>(final(self).spi_error_log().last()),
            final(self).received_log() != old(self).received_log() ==> final(self).spi_error_log() == old(self).spi_error_log(),
            final(self).wait_expired() == old(self).wait_expired(),
            final(self).wait_log() == old(self).wait_log(),
            final(self).settings_kept(old(self)),
            final(self).sent_log() == old(self).sent_log(),
            final(self).echo_log() == old(self).echo_log(),
            final(self).received_log() == old(self).received_log() ==> r is Err
                && final(self).is_pending() == old(self).is_pending(),
            final(self).received_log() == old(self).received_log() || grew_by_one(
                old(self).received_log(),
                final(self).received_log(),
            ),
            grew_by_one(old(self).received_log(), final(self).received_log()) ==> r == wake_answer(
                final(self).received_log().last(),
            ) && !final(self).is_pending(),
    {
        let response = match self.read_data() {
            Ok(response) => response,
            Err(e) => return Err(e),
        };
        proof {
            assert(self.received@.drop_last() =~= old(self).received@);
        }
        match response.expect_data_len(1) {
            Ok(()) => {},
            Err(e) => return Err(e),
        }
        let byte = response.data.as_slice()[0];
        match WakeUpSource::try_from(byte) {
            Ok(wus) => Ok(wus),
            Err(_) => Err(Error::InvalidWakeUpSource(byte)),
        }
    }

    fn _idle(&mut self, params: IdleParams, check_params: bool, timeout: u32) -> (r: Result<
        WakeUpSource,
    >)
        ensures
            timed_out(old(self), final(self)) ==> final(self).is_pending() && r == Err::<WakeUpSource, Error>(Error::ResponseInProgress),
            waited_with(old(self).wait_log(), final(self).wait_log(), timeout),
            final(self).settings_kept(old(self)),
            final(self).echo_log() == old(self).echo_log(),
            idle_request(
                params,
                check_params,
                old(self).dac_ref_spec(),
                old(self).dac_guard_spec(),
            ) matches Err(e) ==> r == Err::<WakeUpSource, Error>(e) && final(self).untouched(
                old(self),
            ),
            idle_request(
                params,
                check_params,
                old(self).dac_ref_spec(),
                old(self).dac_guard_spec(),
            ) matches Ok(p) ==> {
                &&& old(self).is_pending() ==> r == Err::<WakeUpSource, Error>(
                    Error::ResponseInProgress,
                ) && final(self).untouched(old(self))
                &&& !old(self).is_pending() ==> final(self).sent_log() == old(self).sent_log().push(
                    (Command::Idle, idle_payload(p)),
                )
            },
            final(self).received_log() == old(self).received_log() || grew_by_one(
                old(self).received_log(),
                final(self).received_log(),
            ),
            final(self).received_log() == old(self).received_log() ==> r is Err,
            grew_by_one(old(self).received_log(), final(self).received_log()) ==> r == wake_answer(
                final(self).received_log().last(),
            ) && !final(self).is_pending(),
            final(self).wait_log() == old(self).wait_log() || final(self).wait_log() == old(self).wait_log().push(timeout),
            !old(self).is_pending() && final(self).wait_log() == old(self).wait_log() ==> !final(self).is_pending() && final(self).received_log() == old(self).received_log(),
            spi_passed(old(self).spi_error_log(), final(self).spi_error_log(), r),
            idle_request(params, check_params, old(self).dac_ref_spec(), old(self).dac_guard_spec()) is Ok && !old(self).is_pending() && final(self).spi_error_log() == old(self).spi_error_log() && !timed_out(old(self), final(self)) ==> grew_by_one(old(self).received_log(), final(self).received_log()),
            final(self).wait_log() == old(self).wait_log() ==> final(self).wait_expired() == old(self).wait_expired(),
            !old(self).is_pending() && final(self).wait_log() != old(self).wait_log()
                && final(self).received_log() == old(self).received_log() ==> final(self).is_pending(),
    {
        match self._idle_send(params, check_params) {
            Ok(()) => {},
            Err(e) => return Err(e),
        }
        match self.poll_irq_out(timeout) {
            Ok(()) => {},
            Err(e) => return Err(e),
        }
        self._ack_idle()
    }

    /// Idle: put the chip in low power mode and wait up to `timeout`
    /// milliseconds for it to wake up; the answer reports the wake-up
    /// source (see [`wake_answer`]).
    ///
    /// With tag detection as a wake-up source the comparator thresholds are
    /// placed around the calibrated reference (see [`idle_request`]), which
    /// requires a prior [`calibrate_tag_detector`](Self::calibrate_tag_detector).
    /// [`Error::ResponseInProgress`] means the deadline elapsed with the chip
    /// still asleep; its answer can be collected with
    /// [`ack_idle`](Self::ack_idle).
    pub fn idle(&mut self, params: IdleParams, timeout: u32) -> (r: Result<WakeUpSource>)
        ensures
            timed_out(old(self), final(self)) ==> final(self).is_pending() && r == Err::<WakeUpSource, Error>(Error::ResponseInProgress),
            waited_with(old(self).wait_log(), final(self).wait_log(), timeout),
            final(self).settings_kept(old(self)),
            final(self).echo_log() == old(self).echo_log(),
            idle_request(
                params,
                true,
                old(self).dac_ref_spec(),
                old(self).dac_guard_spec(),
            ) matches Err(e) ==> r == Err::<WakeUpSource, Error>(e) && final(self).untouched(
                old(self),
            ),
            idle_request(
                params,
                true,
                old(self).dac_ref_spec(),
                old(self).dac_guard_spec(),
            ) matches Ok(p) ==> {
                &&& old(self).is_pending() ==> r == Err::<WakeUpSource, Error>(
                    Error::ResponseInProgress,
                ) && final(self).untouched(old(self))
                &&& !old(self).is_pending() ==> final(self).sent_log() == old(self).sent_log().push(
                    (Command::Idle, idle_payload(p)),
                )
            },
            final(self).received_log() == old(self).received_log() || grew_by_one(
                old(self).received_log(),
                final(self).received_log(),
            ),
            final(self).received_log() == old(self).received_log() ==> r is Err,
            grew_by_one(old(self).received_log(), final(self).received_log()) ==> r == wake_answer(
                final(self).received_log().last(),
            ) && !final(self).is_pending(),
    {
        self._idle(params, true, timeout)
    }

    /// Send Idle without waiting for the chip to wake up; read the answer
    /// with [`ack_idle`](Self::ack_idle) once IRQ_OUT has fallen.
    pub fn idle_async(&mut self, params: IdleParams) -> (r: Result<()>)
        ensures
            final(self).wait_expired() == old(self).wait_expired(),
            final(self).wait_log() == old(self).wait_log(),
            final(self).settings_kept(old(self)),
            final(self).received_log() == old(self).received_log(),
            final(self).echo_log() == old(self).echo_log(),
            idle_request(
                params,
                true,
                old(self).dac_ref_spec(),
                old(self).dac_guard_spec(),
            ) matches Err(e) ==> r == Err::<(), Error>(e) && final(self).untouched(old(self)),
            idle_request(
                params,
                true,
                old(self).dac_ref_spec(),
                old(self).dac_guard_spec(),
            ) matches Ok(p) ==> {
                &&& old(self).is_pending() ==> r == Err::<(), Error>(Error::ResponseInProgress)
                    && final(self).untouched(old(self))
                &&& !old(self).is_pending() ==> final(self).sent_log() == old(self).sent_log().push(
                    (Command::Idle, idle_payload(p)),
                ) && final(self).is_pending() == (r is Ok)
            },
    {
        self._idle_send(params, true)
    }

    /// Read the deferred answer of an [`idle_async`](Self::idle_async); see
    /// [`wake_answer`].
    pub fn ack_idle(&mut self) -> (r: Result<WakeUpSource>)
        ensures
            final(self).wait_expired() == old(self).wait_expired(),
            final(self).wait_log() == old(self).wait_log(),
            final(self).settings_kept(old(self)),
            final(self).sent_log() == old(self).sent_log(),
            final(self).echo_log() == old(self).echo_log(),
            final(self).received_log() == old(self).received_log() ==> r is Err
                && final(self).is_pending() == old(self).is_pending(),
            final(self).received_log() == old(self).received_log() || grew_by_one(
                old(self).received_log(),
                final(self).received_log(),
            ),
            grew_by_one(old(self).received_log(), final(self).received_log()) ==> r == wake_answer(
                final(self).received_log().last(),
            ) && !final(self).is_pending(),
    {
        self._ack_idle()
    }

    fn _write_register<Rg: Register>(&mut self, reg: &Rg, inc_addr: bool, value: Option<u8>) -> (r:
        Result<()>)
        requires
            reg.writable() || reg.has_index_spec(),
        ensures
            waited_with(old(self).wait_log(), final(self).wait_log(), old(self).deadline()),
            final(self).settings_kept(old(self)),
            final(self).echo_log() == old(self).echo_log(),
            old(self).is_pending() ==> r == Err::<(), Error>(Error::ResponseInProgress)
                && final(self).untouched(old(self)),
            !old(self).is_pending() ==> final(self).sent_log() == old(self).sent_log().push(
                (
                    Command::WrReg,
                    write_register_payload(
                        reg.write_addr_spec(),
                        inc_addr,
                        reg.has_index_spec(),
                        reg.index_confirmation_spec(),
                        value,
                    ),
                ),
            ),
            answer_checked(old(self).received_log(), final(self).received_log(), 0, r),
            r is Ok ==> !final(self).is_pending(),
    {
        let write_addr = reg.write_addr();
        let inc: u8 = if inc_addr {
            1
        } else {
            0
        };
        let has_index = reg.has_index();
        let index = reg.index_confirmation();
        let (data, data_len): ([u8; 4], usize) = if has_index {
            match value {
                Some(v) => ([write_addr, inc, index, v], 4),
                None => ([write_addr, inc, index, 0], 3),
            }
        } else {
            match value {
                Some(v) => ([write_addr, inc, v, 0], 3),
                None => ([write_addr, inc, 0, 0], 2),
            }
        };
        let payload = vstd::slice::slice_subrange(data.as_slice(), 0, data_len);
        proof {
            assert(payload@ =~= write_register_payload(
                reg.write_addr_spec(),
                inc_addr,
                reg.has_index_spec(),
                reg.index_confirmation_spec(),
                value,
            ));
        }
        match self.exchange(Command::WrReg, payload, 0) {
            Ok(_) => Ok(()),
            Err(e) => Err(e),
        }
    }

    /// Read one register; an indexed register is selected first.
    fn read_register<Rg: Register>(&mut self, reg: &Rg) -> (r: Result<u8>)
        requires
            reg.readable(),
        ensures
            waited_with(old(self).wait_log(), final(self).wait_log(), old(self).deadline()),
            final(self).settings_kept(old(self)),
            final(self).echo_log() == old(self).echo_log(),
            old(self).is_pending() ==> r == Err::<u8, Error>(Error::ResponseInProgress)
                && final(self).untouched(old(self)),
            !old(self).is_pending() ==> register_read(
                old(self).sent_log(),
                final(self).sent_log(),
                old(self).received_log(),
                final(self).received_log(),
                register_select(reg),
                read_register_payload(reg.read_addr_spec()),
                |v: u8| Ok::<u8, Error>(v),
                r,
            ),
            r is Ok ==> !final(self).is_pending(),
    {
        let ghost s0 = self.sent@;
        let ghost a0 = self.received@;
        if reg.has_index() {
            // Set register index first
            match self._write_register(reg, false, None) {
                Ok(()) => {},
                Err(e) => return Err(e),
            }
        }
        let ghost s1 = self.sent@;
        let ghost a1 = self.received@;
        let data = [reg.read_addr(), 0x01, 0x00];
        proof {
            assert(data@ =~= read_register_payload(reg.read_addr_spec()));
        }
        let response = match self.exchange(Command::RdReg, data.as_slice(), 1) {
            Ok(response) => response,
            Err(e) => {
                proof {
                    if reg.has_index_spec() && !old(self).is_pending() {
                        assert(a1 =~= a0.push(a1.last()));
                        assert(a1[a0.len() as int] == a1.last());
                    }
                }
                return Err(e);
            },
        };
        proof {
            if reg.has_index_spec() && !old(self).is_pending() {
                assert(a1 =~= a0.push(a1.last()));
                assert(a1[a0.len() as int] == a1.last());
            }
        }
        Ok(response.data.as_slice()[0])
    }

}


impl<S: St25r95Spi, G: St25r95Gpio, F, R, P> St25r95<S, G, F, R, P> {
    /// One Idle of the tag detector calibration, with threshold `high`.
    fn calib_idle(
        &mut self,
        high: u8,
        timeout: u32,
        Ghost(s0): Ghost<Seq<SentCommand>>,
        Ghost(a0): Ghost<Seq<Answer>>,
        Ghost(ws): Ghost<Seq<WakeUpSource>>,
        Ghost(hs): Ghost<Seq<u8>>,
    ) -> (r: Result<WakeUpSource>)
        requires
            !old(self).is_pending(),
            s0.is_prefix_of(old(self).sent_log()),
            a0.is_prefix_of(old(self).received_log()),
            calib_state(
                old(self).sent_log().skip(s0.len() as int),
                old(self).received_log().skip(a0.len() as int),
                ws,
                hs,
            ),
            calib_next(ws) == CalibNext::Idle(high),
        ensures
            waited_with(old(self).wait_log(), final(self).wait_log(), timeout),
            final(self).settings_kept(old(self)),
            final(self).echo_log() == old(self).echo_log(),
            s0.is_prefix_of(final(self).sent_log()),
            a0.is_prefix_of(final(self).received_log()),
            r matches Ok(w) ==> !final(self).is_pending() && calib_state(
                final(self).sent_log().skip(s0.len() as int),
                final(self).received_log().skip(a0.len() as int),
                ws.push(w),
                hs.push(high),
            ),
            r matches Err(e) ==> calib_run(
                final(self).sent_log().skip(s0.len() as int),
                final(self).received_log().skip(a0.len() as int),
                Err(e),
            ),
            timed_out(old(self), final(self)) ==> final(self).is_pending() && r == Err::<
                WakeUpSource,
                Error,
            >(Error::ResponseInProgress),
            final(self).wait_log().len() == old(self).wait_log().len() || final(self).wait_log().len()
                == old(self).wait_log().len() + 1,
            final(self).wait_log().len() == old(self).wait_log().len() ==> r is Err && !final(self).is_pending() && final(self).received_log().len() == old(self).received_log().len(),
            final(self).wait_log().len() == old(self).wait_log().len() + 1 ==> (final(self).is_pending() <==> final(self).received_log().len() == old(self).received_log().len()),
            final(self).wait_log().len() == old(self).wait_log().len() ==> final(self).wait_expired() == old(self).wait_expired(),
            r is Ok ==> !final(self).wait_expired(),
            spi_passed(old(self).spi_error_log(), final(self).spi_error_log(), r),
            final(self).spi_error_log() == old(self).spi_error_log() && !timed_out(old(self), final(self)) ==> final(self).received_log().len() == old(self).received_log().len() + 1,
            final(self).sent_log().len() == old(self).sent_log().len() + 1,
            final(self).received_log().len() == old(self).received_log().len() || final(self).received_log().len() == old(self).received_log().len() + 1,
    {
        let ghost sp = self.sent@.skip(s0.len() as int);
        let ghost ap = self.received@.skip(a0.len() as int);
        let params = calib_params_with(high);
        let r = self._idle(params, false, timeout);
        proof {
            let cmd = calib_command(high);
            assert(self.sent@ == old(self).sent@.push(cmd));
            assert(self.sent@.skip(s0.len() as int) =~= sp.push(cmd));
            assert(s0.is_prefix_of(self.sent@)) by {
                assert(self.sent@.subrange(0, s0.len() as int) =~= old(self).sent@.subrange(
                    0,
                    s0.len() as int,
                ));
            }
            if self.received@ == old(self).received@ {
                lemma_calib_cut(sp, ap, ws, hs, high, r->Err_0);
            } else {
                let a = self.received@.last();
                assert(self.received@ =~= old(self).received@.push(a));
                assert(self.received@.skip(a0.len() as int) =~= ap.push(a));
                assert(a0.is_prefix_of(self.received@)) by {
                    assert(self.received@.subrange(0, a0.len() as int) =~= old(
                        self,
                    ).received@.subrange(0, a0.len() as int));
                }
                match r {
                    Ok(w) => lemma_calib_state_push(sp, ap, ws, hs, high, a, w),
                    Err(e) => lemma_calib_bad_answer(sp, ap, ws, hs, high, a, e),
                }
            }
        }
        r
    }

    /// Calibrate the tag detector: search, by a sequence of Idle commands,
    /// the high comparator threshold at which the chip switches from
    /// detecting a tag to timing out, and keep it as the reference for
    /// [`idle`](Self::idle) with tag detection. The commands sent, the
    /// answers read and the result are related as [`calib_run`] describes:
    /// at least one Idle goes out, and every result is decided by the
    /// answers. Each answered Idle was waited for once; an Idle left without
    /// answer ends the calibration, with [`Error::ResponseInProgress`] and
    /// the answer still pending when the wait ran out (see [`calib_link`]).
    /// An error of the SPI implementation ends the calibration and is
    /// returned as it is; without one, and unless a wait ran out, every Idle
    /// is answered and the result is never [`Error::CalibrationNeeded`].
    /// A success takes eight Idles and finds a multiple of 4 no larger than
    /// 0xFC; the reference changes only on success.
    pub fn calibrate_tag_detector(&mut self) -> (r: Result<u8>)
        ensures
            waited_with(old(self).wait_log(), final(self).wait_log(), DEFAULT_RESPONSE_TIMEOUT_MS),
            old(self).is_pending() ==> r == Err::<u8, Error>(Error::ResponseInProgress)
                && final(self).untouched(old(self)),
            final(self).deadline() == old(self).deadline(),
            final(self).dac_guard_spec() == old(self).dac_guard_spec(),
            final(self).role_spec() == old(self).role_spec(),
            final(self).protocol_spec() == old(self).protocol_spec(),
            final(self).echo_log() == old(self).echo_log(),
            old(self).sent_log().is_prefix_of(final(self).sent_log()),
            old(self).received_log().is_prefix_of(final(self).received_log()),
            !old(self).is_pending() ==> calib_run(
                final(self).sent_log().skip(old(self).sent_log().len() as int),
                final(self).received_log().skip(old(self).received_log().len() as int),
                r,
            ),
            r matches Ok(h) ==> final(self).dac_ref_spec() == Some(h) && !final(self).is_pending(),
            r matches Ok(h) ==> h % 4 == 0 && h <= 0xFC,
            r is Err ==> final(self).dac_ref_spec() == old(self).dac_ref_spec(),
            !old(self).is_pending() ==> final(self).sent_log().len() > old(self).sent_log().len(),
            !old(self).is_pending() ==> calib_link(
                final(self).sent_log().len() - old(self).sent_log().len(),
                final(self).received_log().len() - old(self).received_log().len(),
                final(self).wait_log().len() - old(self).wait_log().len(),
                final(self).is_pending(),
            ),
            timed_out(old(self), final(self)) ==> final(self).is_pending() && r == Err::<u8, Error>(Error::ResponseInProgress),
            spi_passed(old(self).spi_error_log(), final(self).spi_error_log(), r),
            !old(self).is_pending() && final(self).spi_error_log() == old(self).spi_error_log() && !timed_out(old(self), final(self)) ==> {
                &&& final(self).sent_log().len() - old(self).sent_log().len() == final(self).received_log().len() - old(self).received_log().len()
                &&& r != Err::<u8, Error>(Error::CalibrationNeeded)
            },
            r is Ok ==> final(self).sent_log().len() == old(self).sent_log().len() + 8,
    {
        if self.pending_response.flag {
            return Err(Error::ResponseInProgress);
        }
        proof {
            reveal(calib_next);
        }
        let ghost s0 = self.sent@;
        let ghost a0 = self.received@;
        let params = calib_params_with(0);
        let sleep_us = params.duration_before_timeout_us();
        assert(t_ref_ms_of(params.wus.lfo_freq) == 8);
        assert(params.wu_period == 0 && params.max_sleep == 1);
        assert(idle_timeout_us(params) == 32000) by (nonlinear_arith)
            requires
                idle_timeout_us(params) == t_ref_ms_of(params.wus.lfo_freq) * 1000 * (params.wu_period + 2) * (params.max_sleep + 1),
                t_ref_ms_of(params.wus.lfo_freq) == 8,
                params.wu_period == 0,
                params.max_sleep == 1,
        ;
        assert(sleep_us == 32000);
        let idle_timeout = host_timeout_ms(Some(sleep_us));
        assert(idle_timeout == DEFAULT_RESPONSE_TIMEOUT_MS);
        let ghost mut ws: Seq<WakeUpSource> = Seq::empty();
        let ghost mut hs: Seq<u8> = Seq::empty();
        proof {
            assert(self.sent@.skip(s0.len() as int) =~= Seq::<SentCommand>::empty());
            assert(self.received@.skip(a0.len() as int) =~= Seq::<Answer>::empty());
            assert(s0.is_prefix_of(self.sent@)) by {
                assert(self.sent@.subrange(0, s0.len() as int) =~= s0);
            }
            assert(a0.is_prefix_of(self.received@)) by {
                assert(self.received@.subrange(0, a0.len() as int) =~= a0);
            }
        }
        let w0 = match self.calib_idle(0, idle_timeout, Ghost(s0), Ghost(a0), Ghost(ws), Ghost(hs)) {
            Ok(w) => w,
            Err(e) => {
                proof {
                    if self.sent@.skip(s0.len() as int).len() == self.received@.skip(a0.len() as int).len() {
                        lemma_calib_run_answered(self.sent@.skip(s0.len() as int), self.received@.skip(a0.len() as int), Err(e));
                    }
                }
                return Err(e);
            },
        };
        proof {
            ws = ws.push(w0);
            hs = hs.push(0u8);
        }
        if !w0.tag_detection {
            proof {
                lemma_calib_done(
                    self.sent@.skip(s0.len() as int),
                    self.received@.skip(a0.len() as int),
                    ws,
                    hs,
                    Err(Error::CalibTagDetectionFailed),
                );
            }
            return Err(Error::CalibTagDetectionFailed);
        }
        let w1 = match self.calib_idle(0xFC, idle_timeout, Ghost(s0), Ghost(a0), Ghost(ws), Ghost(hs)) {
            Ok(w) => w,
            Err(e) => {
                proof {
                    if self.sent@.skip(s0.len() as int).len() == self.received@.skip(a0.len() as int).len() {
                        lemma_calib_run_answered(self.sent@.skip(s0.len() as int), self.received@.skip(a0.len() as int), Err(e));
                    }
                }
                return Err(e);
            },
        };
        proof {
            ws = ws.push(w1);
            hs = hs.push(0xFCu8);
        }
        if !w1.timeout {
            proof {
                lemma_calib_done(
                    self.sent@.skip(s0.len() as int),
                    self.received@.skip(a0.len() as int),
                    ws,
                    hs,
                    Err(Error::CalibTimeoutFailed),
                );
            }
            return Err(Error::CalibTimeoutFailed);
        }
        let steps: [i16; 6] = [0x80, 0x40, 0x20, 0x10, 0x08, 0x04];
        let mut high: u8 = 0xFC;
        let mut wus = w1;
        let mut k: usize = 0;
        while k < 6
            invariant
                k <= 6,
                !old(self).is_pending(),
                !self.is_pending(),
                self.settings_kept(old(self)),
                self.echo_log() == old(self).echo_log(),
                s0 == old(self).sent_log(),
                a0 == old(self).received_log(),
                idle_timeout == DEFAULT_RESPONSE_TIMEOUT_MS,
                waited_with(old(self).wait_log(), self.wait_log(), DEFAULT_RESPONSE_TIMEOUT_MS),
                self.wait_log().len() == old(self).wait_log().len() + ws.len(),
                self.spi_error_log() == old(self).spi_error_log(),
                self.sent_log().len() == s0.len() + ws.len(),
                self.received_log().len() == a0.len() + ws.len(),
                !self.wait_expired(),
                s0.is_prefix_of(self.sent_log()),
                a0.is_prefix_of(self.received_log()),
                calib_state(
                    self.sent_log().skip(s0.len() as int),
                    self.received_log().skip(a0.len() as int),
                    ws,
                    hs,
                ),
                ws.len() == k + 2,
                ws[0].tag_detection,
                ws[1].timeout,
                wus == ws[k + 1],
                calib_search(ws, k as nat) == Ok::<u8, Error>(high),
                forall|j: int| 0 <= j < 6 ==> #[trigger] steps@[j] == calib_delta(j),
            decreases 6 - k,
        {
            proof {
                reveal(calib_next);
            }
            let step = steps[k];
            assert(steps@[k as int] == calib_delta(k as int));
            if wus.timeout {
                high = match adjust_calibration_dac_high(high, -step) {
                    Ok(h) => h,
                    Err(e) => {
                        proof {
                            lemma_calib_done(
                                self.sent@.skip(s0.len() as int),
                                self.received@.skip(a0.len() as int),
                                ws,
                                hs,
                                Err(e),
                            );
                        }
                        return Err(e);
                    },
                };
            } else if wus.tag_detection {
                high = match adjust_calibration_dac_high(high, step) {
                    Ok(h) => h,
                    Err(e) => {
                        proof {
                            lemma_calib_done(
                                self.sent@.skip(s0.len() as int),
                                self.received@.skip(a0.len() as int),
                                ws,
                                hs,
                                Err(e),
                            );
                        }
                        return Err(e);
                    },
                };
            }
            assert(calib_search(ws, (k + 1) as nat) == Ok::<u8, Error>(high));
            let w = match self.calib_idle(high, idle_timeout, Ghost(s0), Ghost(a0), Ghost(ws), Ghost(hs)) {
                Ok(w) => w,
                Err(e) => {
                    proof {
                        if self.sent@.skip(s0.len() as int).len() == self.received@.skip(a0.len() as int).len() {
                            lemma_calib_run_answered(self.sent@.skip(s0.len() as int), self.received@.skip(a0.len() as int), Err(e));
                        }
                    }
                    return Err(e);
                },
            };
            proof {
                lemma_calib_search_prefix(ws, w, (k + 1) as nat);
                ws = ws.push(w);
                hs = hs.push(high);
            }
            wus = w;
            k = k + 1;
        }
        if wus.timeout {
            high = match adjust_calibration_dac_high(high, -0x04) {
                Ok(h) => h,
                Err(e) => {
                    proof {
                        lemma_calib_done(
                            self.sent@.skip(s0.len() as int),
                            self.received@.skip(a0.len() as int),
                            ws,
                            hs,
                            Err(e),
                        );
                    }
                    return Err(e);
                },
            };
        }
        proof {
            lemma_calib_done(
                self.sent@.skip(s0.len() as int),
                self.received@.skip(a0.len() as int),
                ws,
                hs,
                Ok(high),
            );
            lemma_calib_result_aligned(ws);
        }
        self.dac_ref = Some(high);
        Ok(high)
    }
}


/// The Echo command and its empty payload.
pub open spec fn echo_command() -> SentCommand {
    (Command::Echo, Seq::empty())
}

/// An Echo exchange went from logs `s0`, `e0`, poll log `q0` and pending
/// flag `p0` to `s1`, `e1`, `q1`, `p1` and ended in `r`: the link is polled
/// once for CAN_SEND (bit 3); if it is not ready the call fails with
/// nothing else done; if an answer is outstanding the call fails with
/// `ResponseInProgress` and no Echo is sent; otherwise the Echo is sent and
/// either no answer is read and the call fails, or one is read and the
/// result is what `outcome` makes of it.
pub open spec fn echo_exchanged<T>(
    s0: Seq<SentCommand>,
    s1: Seq<SentCommand>,
    e0: Seq<Option<Seq<u8>>>,
    e1: Seq<Option<Seq<u8>>>,
    q0: Seq<(u8, bool)>,
    q1: Seq<(u8, bool)>,
    p0: bool,
    p1: bool,
    outcome: spec_fn(Option<Seq<u8>>) -> Result<T>,
    r: Result<T>,
) -> bool {
    let ready = q1.last().1;
    &&& grew_by_one(q0, q1)
    &&& q1.last().0 == 0x08
    &&& !ready ==> s1 == s0 && e1 == e0 && p1 == p0 && r is Err
    &&& ready && p0 ==> s1 == s0 && e1 == e0 && p1 == p0 && r == Err::<T, Error>(
        Error::ResponseInProgress,
    )
    &&& ready && !p0 ==> s1 == s0.push(echo_command()) && (e1 == e0 && r is Err || grew_by_one(
        e0,
        e1,
    ) && !p1 && r == outcome(e1.last()))
}

/// What an Echo answer amounts to when it cancels Listen mode: as
/// [`echo_outcome`], except that a frame reporting `UserStop`, the reason
/// the chip gives for leaving Listen mode on request, is a success.
pub open spec fn cancel_outcome(answer: Option<Seq<u8>>) -> Result<()> {
    match answer {
        None => Err(Error::EchoFailed),
        Some(bytes) => match parse_echo(bytes) {
            Err(e) => Err(e),
            Ok(None) => Ok(()),
            Ok(Some((code, data))) => match check_data_len(code, data, 0) {
                Err(Error::Hw(St25r95Error::UserStop)) => Ok(()),
                other => other,
            },
        },
    }
}

/// Whether a chip name starts with "NFC".
pub open spec fn names_nfc(name: Seq<u8>) -> bool {
    name.len() >= 3 && name[0] == 0x4E && name[1] == 0x46 && name[2] == 0x43
}

/// Accept a chip whose name starts with "NFC"; any other name is an
/// [`Error::IdentificationError`].
pub fn check_identification(name: &ChipName) -> (r: Result<()>)
    ensures
        r == if names_nfc(chip_name_bytes(*name)) {
            Ok::<(), Error>(())
        } else {
            Err::<(), Error>(Error::IdentificationError)
        },
{
    let bytes = name.as_bytes();
    if bytes.len() >= 3 && bytes[0] == 0x4E && bytes[1] == 0x46 && bytes[2] == 0x43 {
        Ok(())
    } else {
        Err(Error::IdentificationError)
    }
}

impl<S: St25r95Spi, G: St25r95Gpio, F, R, P> St25r95<S, G, F, R, P> {
    /// Send Echo once the link is ready and read its raw answer.
    fn echo_exchange(&mut self) -> (r: Result<EchoResponse>)
        ensures
            spi_passed(old(self).spi_error_log(), final(self).spi_error_log(), r),
            !old(self).is_pending() && final(self).spi_error_log() == old(self).spi_error_log() && !timed_out(old(self), final(self)) ==> grew_by_one(old(self).echo_log(), final(self).echo_log()),
            timed_out(old(self), final(self)) ==> final(self).is_pending() && r == Err::<EchoResponse, Error>(Error::ResponseInProgress),
            waited_with(old(self).wait_log(), final(self).wait_log(), DEFAULT_RESPONSE_TIMEOUT_MS),
            final(self).settings_kept(old(self)),
            final(self).received_log() == old(self).received_log(),
            grew_by_one(old(self).poll_log(), final(self).poll_log()),
            final(self).poll_log().last().0 == 0x08,
            !final(self).poll_log().last().1 ==> final(self).sent_log() == old(self).sent_log()
                && final(self).echo_log() == old(self).echo_log() && final(self).is_pending() == old(
                self,
            ).is_pending() && r is Err,
            final(self).poll_log().last().1 && old(self).is_pending() ==> final(self).sent_log()
                == old(self).sent_log() && final(self).echo_log() == old(self).echo_log()
                && final(self).is_pending() && r == Err::<EchoResponse, Error>(
                Error::ResponseInProgress,
            ),
            final(self).poll_log().last().1 && !old(self).is_pending() ==> final(self).sent_log()
                == old(self).sent_log().push(echo_command()) && (final(self).echo_log() == old(
                self,
            ).echo_log() && r is Err || grew_by_one(old(self).echo_log(), final(self).echo_log())),
            grew_by_one(old(self).echo_log(), final(self).echo_log()) ==> !final(self).is_pending()
                && match final(self).echo_log().last() {
                None => r == Err::<EchoResponse, Error>(Error::EchoFailed),
                Some(bytes) => {
                    &&& r matches Ok(EchoResponse::Echo) ==> parse_echo(bytes) == Ok::<
                        Option<Answer>,
                        Error,
                    >(None)
                    &&& r matches Ok(EchoResponse::ListenCancelled(resp)) ==> parse_echo(bytes)
                        == Ok::<Option<Answer>, Error>(Some((resp.code, resp.data@)))
                    &&& r matches Err(e) ==> parse_echo(bytes) == Err::<Option<Answer>, Error>(e)
                },
            },
    {
        let flags = PollFlags::can_send();
        let polled = self.spi.poll(flags);
        proof {
            self.polled@ = self.polled@.push((flags.bits_spec(), polled is Ok));
            assert(self.polled@.drop_last() =~= old(self).polled@);
            let before = self.spi_errors@;
            self.spi_errors@ = spi_log_after(before, polled);
            lemma_spi_log(before, polled);
        }
        match polled {
            Ok(()) => {},
            Err(e) => return Err(e),
        }
        let empty: [u8; 0] = [];
        proof {
            assert(empty@ =~= Seq::<u8>::empty());
        }
        match self.send_command(Command::Echo, empty.as_slice()) {
            Ok(()) => {},
            Err(e) => return Err(e),
        }
        match self.poll_irq_out(DEFAULT_RESPONSE_TIMEOUT_MS) {
            Ok(()) => {},
            Err(e) => return Err(e),
        }
        self.read_echo()
    }

    /// Echo, succeeding only on a bare Echo byte; see [`echo_outcome`].
    fn echo_checked(&mut self) -> (r: Result<()>)
        ensures
            spi_passed(old(self).spi_error_log(), final(self).spi_error_log(), r),
            !old(self).is_pending() && final(self).spi_error_log() == old(self).spi_error_log() && !timed_out(old(self), final(self)) ==> grew_by_one(old(self).echo_log(), final(self).echo_log()) && !final(self).is_pending() && r == echo_outcome(final(self).echo_log().last()),
            timed_out(old(self), final(self)) ==> final(self).is_pending() && r == Err::<(), Error>(Error::ResponseInProgress),
            waited_with(old(self).wait_log(), final(self).wait_log(), DEFAULT_RESPONSE_TIMEOUT_MS),
            final(self).settings_kept(old(self)),
            final(self).received_log() == old(self).received_log(),
            echo_exchanged(
                old(self).sent_log(),
                final(self).sent_log(),
                old(self).echo_log(),
                final(self).echo_log(),
                old(self).poll_log(),
                final(self).poll_log(),
                old(self).is_pending(),
                final(self).is_pending(),
                |a: Option<Seq<u8>>| echo_outcome(a),
                r,
            ),
    {
        let response = match self.echo_exchange() {
            Ok(response) => response,
            Err(e) => return Err(e),
        };
        match response {
            EchoResponse::Echo => Ok(()),
            EchoResponse::ListenCancelled(response) => match response.ensure_ok() {
                Err(e) => Err(e),
                Ok(()) => Err(Error::EchoFailed),
            },
        }
    }

    /// Read the Wakeup register: the wake-up sources of the last Idle.
    pub fn wakeup_source(&mut self) -> (r: Result<WakeUpSource>)
        ensures
            waited_with(old(self).wait_log(), final(self).wait_log(), old(self).deadline()),
            final(self).settings_kept(old(self)),
            final(self).echo_log() == old(self).echo_log(),
            old(self).is_pending() ==> r == Err::<WakeUpSource, Error>(Error::ResponseInProgress)
                && final(self).untouched(old(self)),
            !old(self).is_pending() ==> register_read(
                old(self).sent_log(),
                final(self).sent_log(),
                old(self).received_log(),
                final(self).received_log(),
                None,
                read_register_payload(0x62),
                |v: u8| Ok::<WakeUpSource, Error>(wus_of(v)),
                r,
            ),
            r is Ok ==> !final(self).is_pending(),
    {
        let reg = Wakeup;
        let value = self.read_register(&reg);
        let r = match value {
            Ok(value) => match WakeUpSource::try_from(value) {
                Ok(wus) => Ok(wus),
                Err(_) => Err(Error::InvalidWakeUpSource(value)),
            },
            Err(e) => Err(e),
        };
        proof {
            if !old(self).is_pending() {
                lemma_register_read_decode(
                    old(self).sent_log(),
                    self.sent_log(),
                    old(self).received_log(),
                    self.received_log(),
                    None,
                    read_register_payload(0x62),
                    |v: u8| Ok::<WakeUpSource, Error>(wus_of(v)),
                    value,
                    r,
                );
            }
        }
        r
    }
}

impl<S: St25r95Spi, G: St25r95Gpio> St25r95<S, G, FieldOff, NoRole, NoProtocol> {
    /// Start the driver: pulse IRQ_IN to wake the chip, reset the SPI link,
    /// and identify the chip, whose name must start with "NFC". The new
    /// driver has the field off, no calibration and the default deadline,
    /// and has sent only the IDN command.
    pub fn new(spi: S, gpio: G) -> (r: Result<Self>)
        ensures
            r matches Ok(d) ==> {
                &&& d.sent_log() == seq![(Command::Idn, Seq::<u8>::empty())]
                &&& d.received_log().len() == 1
                &&& check_data_len(d.received_log()[0].0, d.received_log()[0].1, 15) is Ok
                &&& utf8_valid(d.received_log()[0].1.take(13))
                &&& names_nfc(d.received_log()[0].1)
                &&& d.echo_log() == Seq::<Option<Seq<u8>>>::empty()
                &&& waited_with(Seq::empty(), d.wait_log(), DEFAULT_RESPONSE_TIMEOUT_MS)
                &&& !d.is_pending()
                &&& d.deadline() == DEFAULT_RESPONSE_TIMEOUT_MS
                &&& d.dac_ref_spec() is None
                &&& d.dac_guard_spec() == 0
                &&& d.link_log() == seq![LinkOp::IrqInPulse, LinkOp::Reset(true), LinkOp::IrqInPulse]
                &&& !d.sod_used()
            },
    {
        let mut st25r95 = St25r95 {
            spi,
            gpio,
            dac_ref: None,
            dac_guard: 0,
            response_timeout: DEFAULT_RESPONSE_TIMEOUT_MS,
            pending_response: Pending { flag: false, exchanges: Ghost(Seq::empty()) },
            field: PhantomData,
            role: NoRole,
            protocol: NoProtocol,
            sent: Ghost(Seq::empty()),
            received: Ghost(Seq::empty()),
            echoed: Ghost(Seq::empty()),
            waited: Ghost(Seq::empty()),
            expired: Ghost(false),
            polled: Ghost(Seq::empty()),
            controls: Ghost(Seq::empty()),
            sod: Ghost(false),
            spi_errors: Ghost(Seq::empty()),
        };
        // Startup sequence §3.2
        st25r95.irq_in_pulse();
        // should be in Ready state
        match st25r95.reset() {
            Ok(()) => {},
            Err(e) => return Err(e),
        }
        let (name, _) = match st25r95.idn() {
            Ok(idn) => idn,
            Err(e) => return Err(e),
        };
        proof {
            assert(st25r95.received@ =~= seq![st25r95.received@.last()]);
            assert(st25r95.received@.last().1.take(13).take(3) =~= st25r95.received@.last().1.take(3));
            assert(st25r95.controls@ =~= seq![LinkOp::IrqInPulse, LinkOp::Reset(true), LinkOp::IrqInPulse]);
        }
        match check_identification(&name) {
            Ok(()) => Ok(st25r95),
            Err(e) => Err(e),
        }
    }

    /// Echo: check the link to the chip. Succeeds only on a bare Echo byte;
    /// an Echo byte followed by a frame, which is what leaving Listen mode
    /// answers, reports that frame's status, or [`Error::EchoFailed`] when
    /// the status is a success (see [`echo_outcome`]). An error of the SPI
    /// implementation is returned as it is; without one, and unless the
    /// wait for IRQ_OUT ran out, the answer is read and decides the result.
    pub fn echo(&mut self) -> (r: Result<()>)
        ensures
            spi_passed(old(self).spi_error_log(), final(self).spi_error_log(), r),
            !old(self).is_pending() && final(self).spi_error_log() == old(self).spi_error_log() && !timed_out(old(self), final(self)) ==> grew_by_one(old(self).echo_log(), final(self).echo_log()) && !final(self).is_pending() && r == echo_outcome(final(self).echo_log().last()),
            timed_out(old(self), final(self)) ==> final(self).is_pending() && r == Err::<(), Error>(Error::ResponseInProgress),
            waited_with(old(self).wait_log(), final(self).wait_log(), DEFAULT_RESPONSE_TIMEOUT_MS),
            final(self).settings_kept(old(self)),
            final(self).received_log() == old(self).received_log(),
            echo_exchanged(
                old(self).sent_log(),
                final(self).sent_log(),
                old(self).echo_log(),
                final(self).echo_log(),
                old(self).poll_log(),
                final(self).poll_log(),
                old(self).is_pending(),
                final(self).is_pending(),
                |a: Option<Seq<u8>>| echo_outcome(a),
                r,
            ),
    {
        self.echo_checked()
    }
}

impl<S: St25r95Spi, G: St25r95Gpio, R: Default, P: Default> St25r95<S, G, FieldOn, R, P> {
    /// Turn the field off (ProtocolSelect of the FieldOff protocol); the
    /// role and protocol go back to their defaults.
    pub fn field_off(self) -> (r: Result<St25r95<S, G, FieldOff, R, P>>)
        ensures
            self.is_pending() ==> r is Err && r->Err_0 == Error::ResponseInProgress,
            r matches Ok(d) ==> selected(
                &self,
                &d,
                Protocol::FieldOff,
                (seq![0u8, 0, 0, 0, 0, 0, 0, 0], 1),
                None,
            ),
    {
        let mut this = self;
        match this.select_protocol(Protocol::FieldOff, protocol::FieldOff) {
            Ok(()) => {},
            Err(e) => return Err(e),
        }
        Ok(this.transition(R::default(), P::default()))
    }

    /// Echo: check the link to the chip; see [`echo_outcome`].
    pub fn echo(&mut self) -> (r: Result<()>)
        ensures
            spi_passed(old(self).spi_error_log(), final(self).spi_error_log(), r),
            !old(self).is_pending() && final(self).spi_error_log() == old(self).spi_error_log() && !timed_out(old(self), final(self)) ==> grew_by_one(old(self).echo_log(), final(self).echo_log()) && !final(self).is_pending() && r == echo_outcome(final(self).echo_log().last()),
            timed_out(old(self), final(self)) ==> final(self).is_pending() && r == Err::<(), Error>(Error::ResponseInProgress),
            waited_with(old(self).wait_log(), final(self).wait_log(), DEFAULT_RESPONSE_TIMEOUT_MS),
            final(self).settings_kept(old(self)),
            final(self).received_log() == old(self).received_log(),
            echo_exchanged(
                old(self).sent_log(),
                final(self).sent_log(),
                old(self).echo_log(),
                final(self).echo_log(),
                old(self).poll_log(),
                final(self).poll_log(),
                old(self).is_pending(),
                final(self).is_pending(),
                |a: Option<Seq<u8>>| echo_outcome(a),
                r,
            ),
    {
        self.echo_checked()
    }
}

impl<S: St25r95Spi, G: St25r95Gpio, P: Default> St25r95<S, G, FieldOn, Reader, P> {
    /// SendRecv: send `data` to a tag and return the chip's answer as is,
    /// hardware status included.
    pub fn send_receive(&mut self, data: &[u8]) -> (r: Result<ReadResponse>)
        ensures
            timed_out(old(self), final(self)) ==> final(self).is_pending() && r == Err::<ReadResponse, Error>(Error::ResponseInProgress),
            waited_with(old(self).wait_log(), final(self).wait_log(), old(self).deadline()),
            final(self).settings_kept(old(self)),
            final(self).echo_log() == old(self).echo_log(),
            old(self).is_pending() ==> r == Err::<ReadResponse, Error>(Error::ResponseInProgress)
                && final(self).untouched(old(self)),
            !old(self).is_pending() && data@.len() > MAX_COMMAND_DATA_LEN ==> r == Err::<
                ReadResponse,
                Error,
            >(Error::InvalidDataLen(data@.len() as usize)) && final(self).untouched(old(self)),
            !old(self).is_pending() && data@.len() <= MAX_COMMAND_DATA_LEN ==> final(self).sent_log()
                == old(self).sent_log().push((Command::SendRecv, data@)),
            r matches Ok(resp) ==> final(self).received_log() == old(self).received_log().push(
                (resp.code, resp.data@),
            ) && !final(self).is_pending(),
            r is Err ==> final(self).received_log() == old(self).received_log(),
    {
        self.transceive(Command::SendRecv, data)
    }

    /// Read the ARC_B register; see [`arc_b_of`].
    pub fn read_arc_b(&mut self) -> (r: Result<ArcB>)
        ensures
            waited_with(old(self).wait_log(), final(self).wait_log(), old(self).deadline()),
            final(self).settings_kept(old(self)),
            final(self).echo_log() == old(self).echo_log(),
            old(self).is_pending() ==> r == Err::<ArcB, Error>(Error::ResponseInProgress)
                && final(self).untouched(old(self)),
            !old(self).is_pending() ==> register_read(
                old(self).sent_log(),
                final(self).sent_log(),
                old(self).received_log(),
                final(self).received_log(),
                Some(write_register_payload(0x68, false, true, 0x01, None)),
                read_register_payload(0x69),
                |v: u8| arc_b_of(v),
                r,
            ),
            r is Ok ==> !final(self).is_pending(),
    {
        let value = self.read_register(&ArcB::fake());
        let r = match value {
            Ok(value) => ArcB::from_u8(value),
            Err(e) => Err(e),
        };
        proof {
            if !old(self).is_pending() {
                lemma_register_read_decode(
                    old(self).sent_log(),
                    self.sent_log(),
                    old(self).received_log(),
                    self.received_log(),
                    Some(write_register_payload(0x68, false, true, 0x01, None)),
                    read_register_payload(0x69),
                    |v: u8| arc_b_of(v),
                    value,
                    r,
                );
            }
        }
        r
    }

    /// Write the ARC_B register.
    pub fn write_arc_b(&mut self, arc_b: ArcB) -> (r: Result<()>)
        ensures
            register_written(
                old(self),
                final(self),
                write_register_payload(0x68, false, true, 0x01, Some(arc_b_byte(arc_b))),
                r,
            ),
    {
        let value = arc_b.value();
        self._write_register(&arc_b, false, Some(value))
    }
}


/// The ARC_B value with the given fields when the modulation index is one
/// that `allowed` accepts, and otherwise the error that names it.
pub open spec fn arc_b_checked(
    allowed: bool,
    modulation_index: ModulationIndex,
    receiver_gain: ReceiverGain,
) -> Result<ArcB> {
    if allowed {
        Ok(ArcB { modulation_index, receiver_gain })
    } else {
        Err(Error::InvalidModulationIndex(modulation_index_bits(modulation_index)))
    }
}

/// The modulation indexes ISO/IEC 15693 accepts with each modulation
/// (datasheet Table 35).
pub open spec fn iso15693_index_allowed(m: Modulation, mi: ModulationIndex) -> bool {
    match m {
        Modulation::Percent10 => mi == ModulationIndex::Percent30 || mi == ModulationIndex::Percent33
            || mi == ModulationIndex::Percent36,
        Modulation::Percent100 => mi == ModulationIndex::Percent95,
    }
}

/// The modulation indexes ISO/IEC 14443-B and FeliCa accept (datasheet
/// Table 35).
pub open spec fn type_b_index_allowed(mi: ModulationIndex) -> bool {
    mi == ModulationIndex::Percent10 || mi == ModulationIndex::Percent17 || mi
        == ModulationIndex::Percent25 || mi == ModulationIndex::Percent30
}

/// The contract of a register write: the WrReg command with `payload` is
/// sent unless an answer is outstanding, and its answer must be a success
/// without payload.
pub open spec fn register_written<S, G, F, R, P>(
    old: &St25r95<S, G, F, R, P>,
    new: &St25r95<S, G, F, R, P>,
    payload: Seq<u8>,
    r: Result<()>,
) -> bool {
    &&& new.settings_kept(old)
    &&& new.echo_log() == old.echo_log()
    &&& new.link_log() == old.link_log()
    &&& new.sod_used() == old.sod_used()
    &&& waited_with(old.wait_log(), new.wait_log(), old.deadline())
    &&& old.is_pending() ==> r == Err::<(), Error>(Error::ResponseInProgress) && new.untouched(old)
    &&& !old.is_pending() ==> new.sent_log() == old.sent_log().push((Command::WrReg, payload))
    &&& answer_checked(old.received_log(), new.received_log(), 0, r)
    &&& r is Ok ==> !new.is_pending()
}

impl<S: St25r95Spi, G: St25r95Gpio> St25r95<S, G, FieldOn, Reader, Iso15693> {
    /// An ARC_B value for ISO/IEC 15693: with 10% modulation the index must
    /// be 30%, 33% or 36%, with 100% modulation it must be 95%.
    pub fn new_arc_b(&self, modulation_index: ModulationIndex, receiver_gain: ReceiverGain) -> (r:
        Result<ArcB>)
        ensures
            r == arc_b_checked(
                iso15693_index_allowed(self.protocol_spec().modulation_spec(), modulation_index),
                modulation_index,
                receiver_gain,
            ),
    {
        // See Table 35
        let allowed = match self.protocol.0 {
            Modulation::Percent10 => match modulation_index {
                ModulationIndex::Percent30 | ModulationIndex::Percent33
                | ModulationIndex::Percent36 => true,
                _ => false,
            },
            Modulation::Percent100 => match modulation_index {
                ModulationIndex::Percent95 => true,
                _ => false,
            },
        };
        if allowed {
            Ok(ArcB { modulation_index, receiver_gain })
        } else {
            Err(Error::InvalidModulationIndex(modulation_index.bits()))
        }
    }

    /// The default ARC_B value for ISO/IEC 15693: 33% index with 10%
    /// modulation, 95% with 100% modulation, 27 dB gain.
    pub fn default_arc_b(&self) -> (r: ArcB)
        ensures
            r == (ArcB {
                modulation_index: match self.protocol_spec().modulation_spec() {
                    Modulation::Percent10 => ModulationIndex::Percent33,
                    Modulation::Percent100 => ModulationIndex::Percent95,
                },
                receiver_gain: ReceiverGain::Db27,
            }),
    {
        // See Table 35
        ArcB {
            modulation_index: match self.protocol.0 {
                Modulation::Percent10 => ModulationIndex::Percent33,
                Modulation::Percent100 => ModulationIndex::Percent95,
            },
            receiver_gain: ReceiverGain::Db27,
        }
    }
}

impl<S: St25r95Spi, G: St25r95Gpio> St25r95<S, G, FieldOn, Reader, Iso14443A> {
    /// An ARC_B value for ISO/IEC 14443-A: the index must be 95%.
    pub fn new_arc_b(&self, modulation_index: ModulationIndex, receiver_gain: ReceiverGain) -> (r:
        Result<ArcB>)
        ensures
            r == arc_b_checked(
                modulation_index == ModulationIndex::Percent95,
                modulation_index,
                receiver_gain,
            ),
    {
        // See Table 35
        match modulation_index {
            ModulationIndex::Percent95 => Ok(ArcB { modulation_index, receiver_gain }),
            _ => Err(Error::InvalidModulationIndex(modulation_index.bits())),
        }
    }

    /// The default ARC_B value for ISO/IEC 14443-A: 95% index, 8 dB gain.
    pub fn default_arc_b(&self) -> (r: ArcB)
        ensures
            r == (ArcB {
                modulation_index: ModulationIndex::Percent95,
                receiver_gain: ReceiverGain::Db8,
            }),
    {
        // See Table 35
        ArcB { modulation_index: ModulationIndex::Percent95, receiver_gain: ReceiverGain::Db8 }
    }

    /// A timer window value, which must lie in `0x50..=0x60`.
    pub fn new_timer_window(&self, timer_w: u8) -> (r: Result<TimerWindow>)
        ensures
            0x50 <= timer_w <= 0x60 ==> r == Ok::<TimerWindow, Error>(TimerWindow(timer_w)),
            !(0x50 <= timer_w <= 0x60) ==> r == Err::<TimerWindow, Error>(
                Error::InvalidU8Parameter { min: 0x50, max: 0x60, actual: timer_w },
            ),
    {
        if 0x50 <= timer_w && timer_w <= 0x60 {
            Ok(TimerWindow(timer_w))
        } else {
            Err(Error::InvalidU8Parameter { min: 0x50, max: 0x60, actual: timer_w })
        }
    }

    /// The timer window the chip starts with: 0x52 (datasheet §5.11.2).
    pub fn default_timer_window(&self) -> (r: TimerWindow)
        ensures
            r == TimerWindow(0x52),
    {
        // See §5.11.2
        TimerWindow(0x52)
    }

    /// The recommended timer window: 0x56 (datasheet §5.11.2).
    pub fn recommended_timer_window(&self) -> (r: TimerWindow)
        ensures
            r == TimerWindow(0x56),
    {
        // See §5.11.2
        TimerWindow(0x56)
    }

    /// Write the timer window, which tunes the demodulation of ISO/IEC
    /// 14443-A answers.
    pub fn write_timer_windows(&mut self, timer_w: TimerWindow) -> (r: Result<()>)
        ensures
            register_written(
                old(self),
                final(self),
                write_register_payload(0x3A, false, false, 0x04, Some(timer_w.0)),
                r,
            ),
    {
        let value = timer_w.value();
        self._write_register(&timer_w, false, Some(value))
    }
}

impl<S: St25r95Spi, G: St25r95Gpio> St25r95<S, G, FieldOn, Reader, Iso14443B> {
    /// An ARC_B value for ISO/IEC 14443-B: the index must be 10%, 17%, 25%
    /// or 30%.
    pub fn new_arc_b(&self, modulation_index: ModulationIndex, receiver_gain: ReceiverGain) -> (r:
        Result<ArcB>)
        ensures
            r == arc_b_checked(type_b_index_allowed(modulation_index), modulation_index, receiver_gain),
    {
        // See Table 35
        match modulation_index {
            ModulationIndex::Percent10 | ModulationIndex::Percent17 | ModulationIndex::Percent25
            | ModulationIndex::Percent30 => Ok(ArcB { modulation_index, receiver_gain }),
            _ => Err(Error::InvalidModulationIndex(modulation_index.bits())),
        }
    }

    /// The default ARC_B value for ISO/IEC 14443-B: 17% index, 34 dB gain.
    pub fn default_arc_b(&self) -> (r: ArcB)
        ensures
            r == (ArcB {
                modulation_index: ModulationIndex::Percent17,
                receiver_gain: ReceiverGain::Db34,
            }),
    {
        // See Table 35
        ArcB { modulation_index: ModulationIndex::Percent17, receiver_gain: ReceiverGain::Db34 }
    }
}

impl<S: St25r95Spi, G: St25r95Gpio> St25r95<S, G, FieldOn, Reader, FeliCa> {
    /// An ARC_B value for FeliCa: the index must be 10%, 17%, 25% or 30%.
    pub fn new_arc_b(&self, modulation_index: ModulationIndex, receiver_gain: ReceiverGain) -> (r:
        Result<ArcB>)
        ensures
            r == arc_b_checked(type_b_index_allowed(modulation_index), modulation_index, receiver_gain),
    {
        // See Table 35
        match modulation_index {
            ModulationIndex::Percent10 | ModulationIndex::Percent17 | ModulationIndex::Percent25
            | ModulationIndex::Percent30 => Ok(ArcB { modulation_index, receiver_gain }),
            _ => Err(Error::InvalidModulationIndex(modulation_index.bits())),
        }
    }

    /// The default ARC_B value for FeliCa: 17% index, 34 dB gain.
    pub fn default_arc_b(&self) -> (r: ArcB)
        ensures
            r == (ArcB {
                modulation_index: ModulationIndex::Percent17,
                receiver_gain: ReceiverGain::Db34,
            }),
    {
        // See Table 35
        ArcB { modulation_index: ModulationIndex::Percent17, receiver_gain: ReceiverGain::Db34 }
    }

    /// Enable the AutoDetect filter, which synchronizes FeliCa tags with the
    /// chip; ProtocolSelect leaves it disabled.
    pub fn enable_autodetect_filter(&mut self) -> (r: Result<()>)
        ensures
            register_written(
                old(self),
                final(self),
                write_register_payload(0x0A, false, false, 0xA1, Some(0x02)),
                r,
            ),
    {
        let reg = AutoDetectFilter;
        let value = reg.value();
        self._write_register(&reg, false, Some(value))
    }
}


/// The payload of an ACFilter command that activates the filter: the ATQA
/// (least significant byte first), the SAK, then the UIDs of the cascade
/// levels.
pub open spec fn ac_filter_payload(atqa: u16, sak: u8, uids: Seq<[u8; 4]>) -> Seq<u8> {
    Seq::new(
        (3 + 4 * uids.len()) as nat,
        |i: int|
            if i == 0 {
                (atqa % 256) as u8
            } else if i == 1 {
                (atqa / 256) as u8
            } else if i == 2 {
                sak
            } else {
                uids[(i - 3) / 4]@[(i - 3) % 4]
            },
    )
}

/// What an anti-collision state answer amounts to: a success with one byte
/// that names a state.
pub open spec fn anti_col_answer(a: Answer) -> Result<AntiColState> {
    match check_data_len(a.0, a.1, 1) {
        Err(e) => Err(e),
        Ok(_) => match anti_col_of(a.1[0]) {
            Ok(s) => Ok(s),
            Err(_) => Err(Error::InvalidAntiColState(a.1[0])),
        },
    }
}

/// The ACC_A value with the given fields when the sensitivity is 100%, the
/// only one card emulation supports (datasheet Table 36), and otherwise the
/// error that names it.
pub open spec fn acc_a_checked(
    load_modulation_index: LoadModulationIndex,
    demodulator_sensitivity: DemodulatorSensitivity,
) -> Result<AccA> {
    if demodulator_sensitivity == DemodulatorSensitivity::Percent100 {
        Ok(AccA { load_modulation_index, demodulator_sensitivity })
    } else {
        Err(Error::InvalidDemodulatorSensitivity(sensitivity_bits(demodulator_sensitivity)))
    }
}

/// The contract of a command that is only acknowledged: `cmd` is sent
/// unless an answer is outstanding, and its answer must be a success
/// without payload. The listen flag is the only setting that may change.
pub open spec fn acknowledged<S, G, P>(
    old: &St25r95<S, G, FieldOn, CardEmulation, P>,
    new: &St25r95<S, G, FieldOn, CardEmulation, P>,
    cmd: SentCommand,
    r: Result<()>,
) -> bool {
    &&& new.deadline() == old.deadline()
    &&& new.dac_ref_spec() == old.dac_ref_spec()
    &&& new.dac_guard_spec() == old.dac_guard_spec()
    &&& new.protocol_spec() == old.protocol_spec()
    &&& new.echo_log() == old.echo_log()
    &&& new.link_log() == old.link_log()
    &&& new.sod_used() == old.sod_used()
    &&& waited_with(old.wait_log(), new.wait_log(), old.deadline())
    &&& old.is_pending() ==> r == Err::<(), Error>(Error::ResponseInProgress) && new.untouched(old)
    &&& !old.is_pending() ==> new.sent_log() == old.sent_log().push(cmd)
    &&& answer_checked(old.received_log(), new.received_log(), 0, r)
    &&& r is Ok ==> !new.is_pending()
}

impl<S: St25r95Spi, G: St25r95Gpio> St25r95<S, G, FieldOn, CardEmulation, Iso14443A> {
    /// Whether the chip is in Listen mode, as far as the driver knows.
    pub fn is_listening(&self) -> (r: bool)
        ensures
            r == self.role_spec().listening(),
    {
        self.role.0
    }

    /// Listen: put the chip in Listen mode, where it waits for a command
    /// from an external reader. It leaves Listen mode on such a command or
    /// on an Echo from the host ([`cancel_listen`](Self::cancel_listen)).
    pub fn listen(&mut self) -> (r: Result<()>)
        ensures
            acknowledged(old(self), final(self), (Command::Listen, Seq::empty()), r),
            final(self).role_spec().listening() == (r is Ok || old(self).role_spec().listening()),
    {
        let empty: [u8; 0] = [];
        proof {
            assert(empty@ =~= Seq::<u8>::empty());
        }
        match self.exchange(Command::Listen, empty.as_slice(), 0) {
            Ok(_) => {},
            Err(e) => return Err(e),
        }
        self.role.0 = true;
        Ok(())
    }

    /// Wait up to `timeout` milliseconds for a command from an external
    /// reader. On timeout the chip stays in Listen mode.
    pub fn receive(&mut self, timeout: u32) -> (r: Result<ReadResponse>)
        ensures
            timed_out(old(self), final(self)) ==> final(self).is_pending() == old(self).is_pending() && r == Err::<ReadResponse, Error>(Error::ResponseInProgress),
            final(self).wait_log() == old(self).wait_log().push(timeout),
            final(self).settings_kept(old(self)),
            final(self).sent_log() == old(self).sent_log(),
            final(self).echo_log() == old(self).echo_log(),
            r matches Ok(resp) ==> final(self).received_log() == old(self).received_log().push(
                (resp.code, resp.data@),
            ) && !final(self).is_pending(),
            r is Err ==> final(self).received_log() == old(self).received_log()
                && final(self).is_pending() == old(self).is_pending(),
    {
        self.read_with_timeout(timeout)
    }

    /// Send: answer the external reader with `data` by load modulation. A
    /// payload longer than [`MAX_COMMAND_DATA_LEN`] is refused.
    pub fn send(&mut self, data: &[u8]) -> (r: Result<()>)
        ensures
            waited_with(old(self).wait_log(), final(self).wait_log(), old(self).deadline()),
            final(self).settings_kept(old(self)),
            final(self).echo_log() == old(self).echo_log(),
            old(self).is_pending() ==> r == Err::<(), Error>(Error::ResponseInProgress)
                && final(self).untouched(old(self)),
            !old(self).is_pending() && data@.len() > MAX_COMMAND_DATA_LEN ==> r == Err::<(), Error>(
                Error::InvalidDataLen(data@.len() as usize),
            ) && final(self).untouched(old(self)),
            !old(self).is_pending() && data@.len() <= MAX_COMMAND_DATA_LEN ==> final(self).sent_log()
                == old(self).sent_log().push((Command::Send, data@)) && answer_checked(
                old(self).received_log(),
                final(self).received_log(),
                0,
                r,
            ),
            r is Ok ==> !final(self).is_pending(),
    {
        match self.exchange(Command::Send, data, 0) {
            Ok(_) => Ok(()),
            Err(e) => Err(e),
        }
    }

    /// An ACC_A value; the sensitivity must be 100% (see
    /// [`acc_a_checked`]).
    pub fn new_acc_a(
        &self,
        load_modulation_index: LoadModulationIndex,
        demodulator_sensitivity: DemodulatorSensitivity,
    ) -> (r: Result<AccA>)
        ensures
            r == acc_a_checked(load_modulation_index, demodulator_sensitivity),
    {
        // See Table 36
        match demodulator_sensitivity {
            DemodulatorSensitivity::Percent100 => Ok(
                AccA { load_modulation_index, demodulator_sensitivity },
            ),
            _ => Err(Error::InvalidDemodulatorSensitivity(demodulator_sensitivity.bits())),
        }
    }

    /// The default ACC_A value: the default load modulation index and 100%
    /// sensitivity.
    pub fn default_acc_a(&self) -> (r: AccA)
        ensures
            r.load_modulation_index.index() == 0x7,
            r.demodulator_sensitivity == DemodulatorSensitivity::Percent100,
    {
        AccA {
            load_modulation_index: LoadModulationIndex::default(),
            demodulator_sensitivity: DemodulatorSensitivity::Percent100,
        }
    }

    /// The recommended ACC_A value, which is the default one.
    pub fn recommended_acc_a(&self) -> (r: AccA)
        ensures
            r.load_modulation_index.index() == 0x7,
            r.demodulator_sensitivity == DemodulatorSensitivity::Percent100,
    {
        self.default_acc_a()
    }

    /// Read the ACC_A register; see `AccA::from_u8`.
    pub fn read_acc_a(&mut self) -> (r: Result<AccA>)
        ensures
            waited_with(old(self).wait_log(), final(self).wait_log(), old(self).deadline()),
            final(self).settings_kept(old(self)),
            final(self).echo_log() == old(self).echo_log(),
            old(self).is_pending() ==> r == Err::<AccA, Error>(Error::ResponseInProgress)
                && final(self).untouched(old(self)),
            !old(self).is_pending() ==> register_read(
                old(self).sent_log(),
                final(self).sent_log(),
                old(self).received_log(),
                final(self).received_log(),
                Some(write_register_payload(0x68, false, true, 0x04, None)),
                read_register_payload(0x69),
                |v: u8| acc_a_of(v),
                r,
            ),
            r is Ok ==> !final(self).is_pending(),
    {
        let reg = self.default_acc_a();
        let value = self.read_register(&reg);
        let r = match value {
            Ok(value) => AccA::from_u8(value),
            Err(e) => Err(e),
        };
        proof {
            if !old(self).is_pending() {
                lemma_register_read_decode(
                    old(self).sent_log(),
                    self.sent_log(),
                    old(self).received_log(),
                    self.received_log(),
                    Some(write_register_payload(0x68, false, true, 0x04, None)),
                    read_register_payload(0x69),
                    |v: u8| acc_a_of(v),
                    value,
                    r,
                );
            }
        }
        r
    }

    /// Write the ACC_A register: load modulation index and demodulator
    /// sensitivity of the card emulator.
    pub fn write_acc_a(&mut self, acc_a: AccA) -> (r: Result<()>)
        ensures
            acknowledged(
                old(self),
                final(self),
                (Command::WrReg, write_register_payload(0x68, false, true, 0x04, Some(acc_a_byte(acc_a)))),
                r,
            ),
            final(self).role_spec() == old(self).role_spec(),
    {
        let value = acc_a.value();
        self._write_register(&acc_a, false, Some(value))
    }

    /// Activate the anti-collision filter with the ATQA, the SAK and one to
    /// three UIDs, one per cascade level; another number of UIDs is refused
    /// with [`Error::InvalidCascadeLevelFilterCount`] (counting up to the
    /// fourth).
    pub fn activate_ac_filter(&mut self, atqa: ATQA, sak: SAK, cascade_level_filter: &[UID]) -> (r:
        Result<()>)
        ensures
            cascade_level_filter@.len() == 0 ==> r == Err::<(), Error>(
                Error::InvalidCascadeLevelFilterCount(0),
            ) && final(self).untouched(old(self)),
            cascade_level_filter@.len() > 3 ==> r == Err::<(), Error>(
                Error::InvalidCascadeLevelFilterCount(4),
            ) && final(self).untouched(old(self)),
            1 <= cascade_level_filter@.len() <= 3 ==> acknowledged(
                old(self),
                final(self),
                (Command::ACFilter, ac_filter_payload(atqa, sak, cascade_level_filter@)),
                r,
            ) && final(self).role_spec() == old(self).role_spec(),
    {
        let n = cascade_level_filter.len();
        if n > 3 {
            return Err(Error::InvalidCascadeLevelFilterCount(4));
        }
        if n == 0 {
            return Err(Error::InvalidCascadeLevelFilterCount(0));
        }
        let ghost payload = ac_filter_payload(atqa, sak, cascade_level_filter@);
        let mut data = [0u8; 15];
        data[0] = (atqa % 256) as u8;
        data[1] = (atqa / 256) as u8;
        data[2] = sak;
        let mut k: usize = 0;
        while k < n
            invariant
                k <= n <= 3,
                n == cascade_level_filter@.len(),
                payload == ac_filter_payload(atqa, sak, cascade_level_filter@),
                forall|i: int| 0 <= i < 3 + 4 * k ==> #[trigger] data@[i] == payload[i],
            decreases n - k,
        {
            let uid = cascade_level_filter[k];
            let base = 3 + 4 * k;
            data[base] = uid[0];
            data[base + 1] = uid[1];
            data[base + 2] = uid[2];
            data[base + 3] = uid[3];
            proof {
                assert forall|i: int| 0 <= i < 3 + 4 * (k + 1) implies #[trigger] data@[i]
                    == payload[i] by {
                    if i >= base {
                        assert((i - 3) / 4 == k as int);
                        assert((i - 3) % 4 == i - base);
                    }
                }
            }
            k = k + 1;
        }
        let payload_slice = vstd::slice::slice_subrange(data.as_slice(), 0, 3 + 4 * n);
        proof {
            assert(payload_slice@ =~= payload);
        }
        match self.exchange(Command::ACFilter, payload_slice, 0) {
            Ok(_) => Ok(()),
            Err(e) => Err(e),
        }
    }

    /// Send ACFilter with `data` and decode the anti-collision state it
    /// answers.
    fn ac_filter_state(&mut self, data: &[u8]) -> (r: Result<AntiColState>)
        requires
            data@.len() <= 2,
        ensures
            waited_with(old(self).wait_log(), final(self).wait_log(), old(self).deadline()),
            final(self).settings_kept(old(self)),
            final(self).echo_log() == old(self).echo_log(),
            old(self).is_pending() ==> r == Err::<AntiColState, Error>(Error::ResponseInProgress)
                && final(self).untouched(old(self)),
            !old(self).is_pending() ==> one_exchange(
                old(self).sent_log(),
                final(self).sent_log(),
                old(self).received_log(),
                final(self).received_log(),
                (Command::ACFilter, data@),
                |a: Answer| anti_col_answer(a),
                r,
            ),
            r is Ok ==> !final(self).is_pending(),
    {
        let response = match self.exchange(Command::ACFilter, data, 1) {
            Ok(response) => response,
            Err(e) => return Err(e),
        };
        let byte = response.data.as_slice()[0];
        match AntiColState::try_from(byte) {
            Ok(state) => Ok(state),
            Err(_) => Err(Error::InvalidAntiColState(byte)),
        }
    }

    /// De-activate the anti-collision filter; the chip answers the state it
    /// was in.
    pub fn deactivate_ac_filter(&mut self) -> (r: Result<AntiColState>)
        ensures
            waited_with(old(self).wait_log(), final(self).wait_log(), old(self).deadline()),
            final(self).settings_kept(old(self)),
            final(self).echo_log() == old(self).echo_log(),
            old(self).is_pending() ==> r == Err::<AntiColState, Error>(Error::ResponseInProgress)
                && final(self).untouched(old(self)),
            !old(self).is_pending() ==> one_exchange(
                old(self).sent_log(),
                final(self).sent_log(),
                old(self).received_log(),
                final(self).received_log(),
                (Command::ACFilter, Seq::empty()),
                |a: Answer| anti_col_answer(a),
                r,
            ),
            r is Ok ==> !final(self).is_pending(),
    {
        let empty: [u8; 0] = [];
        proof {
            assert(empty@ =~= Seq::<u8>::empty());
        }
        self.ac_filter_state(empty.as_slice())
    }

    /// Read the anti-collision state without de-activating the filter.
    pub fn anti_collision_state(&mut self) -> (r: Result<AntiColState>)
        ensures
            waited_with(old(self).wait_log(), final(self).wait_log(), old(self).deadline()),
            final(self).settings_kept(old(self)),
            final(self).echo_log() == old(self).echo_log(),
            old(self).is_pending() ==> r == Err::<AntiColState, Error>(Error::ResponseInProgress)
                && final(self).untouched(old(self)),
            !old(self).is_pending() ==> one_exchange(
                old(self).sent_log(),
                final(self).sent_log(),
                old(self).received_log(),
                final(self).received_log(),
                (Command::ACFilter, seq![0x00u8, 0x00u8]),
                |a: Answer| anti_col_answer(a),
                r,
            ),
            r is Ok ==> !final(self).is_pending(),
    {
        let data = [0x00u8, 0x00u8];
        proof {
            assert(data@ =~= seq![0x00u8, 0x00u8]);
        }
        self.ac_filter_state(data.as_slice())
    }

    /// Set the anti-collision state.
    pub fn set_anti_collision_state(&mut self, state: AntiColState) -> (r: Result<()>)
        ensures
            acknowledged(
                old(self),
                final(self),
                (Command::ACFilter, seq![anti_col_code(state)]),
                r,
            ),
            final(self).role_spec() == old(self).role_spec(),
    {
        let data = [state.code()];
        proof {
            assert(data@ =~= seq![anti_col_code(state)]);
        }
        match self.exchange(Command::ACFilter, data.as_slice(), 0) {
            Ok(_) => Ok(()),
            Err(e) => Err(e),
        }
    }

    /// Leave Listen mode by sending Echo. The chip answers the Echo byte,
    /// followed by a frame reporting `UserStop` if it was still listening;
    /// both answers are a success (see [`cancel_outcome`]), and on success
    /// the driver no longer considers the chip listening.
    pub fn cancel_listen(&mut self) -> (r: Result<()>)
        ensures
            spi_passed(old(self).spi_error_log(), final(self).spi_error_log(), r),
            !old(self).is_pending() && final(self).spi_error_log() == old(self).spi_error_log() && !timed_out(old(self), final(self)) ==> grew_by_one(old(self).echo_log(), final(self).echo_log()) && !final(self).is_pending() && r == cancel_outcome(final(self).echo_log().last()),
            timed_out(old(self), final(self)) ==> final(self).is_pending() && r == Err::<(), Error>(Error::ResponseInProgress),
            waited_with(old(self).wait_log(), final(self).wait_log(), DEFAULT_RESPONSE_TIMEOUT_MS),
            final(self).deadline() == old(self).deadline(),
            final(self).dac_ref_spec() == old(self).dac_ref_spec(),
            final(self).dac_guard_spec() == old(self).dac_guard_spec(),
            final(self).protocol_spec() == old(self).protocol_spec(),
            final(self).received_log() == old(self).received_log(),
            echo_exchanged(
                old(self).sent_log(),
                final(self).sent_log(),
                old(self).echo_log(),
                final(self).echo_log(),
                old(self).poll_log(),
                final(self).poll_log(),
                old(self).is_pending(),
                final(self).is_pending(),
                |a: Option<Seq<u8>>| cancel_outcome(a),
                r,
            ),
            final(self).role_spec().listening() == (r is Err && old(self).role_spec().listening()),
    {
        let response = match self.echo_exchange() {
            Ok(response) => response,
            Err(e) => return Err(e),
        };
        match response {
            EchoResponse::Echo => {},
            EchoResponse::ListenCancelled(response) => match response.expect_data_len(0) {
                // Leaving Listen mode on request is reported as `UserStop`;
                // here that is the expected outcome, not a failure.
                Ok(()) => {},
                Err(Error::Hw(St25r95Error::UserStop)) => {},
                Err(e) => return Err(e),
            },
        }
        self.role.0 = false;
        Ok(())
    }
}

} // verus!
