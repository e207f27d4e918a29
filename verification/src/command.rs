//! Commands of the ST25R95 and the parameters of the Idle command.
use vstd::prelude::*;

verus! {

/// 1 for `true`, 0 for `false`.
pub open spec fn bit_of(b: bool) -> int {
    if b {
        1
    } else {
        0
    }
}

/// Whether bit `k` of `v` is set.
pub open spec fn bit_set(v: int, k: nat) -> bool {
    (v / vstd::arithmetic::power2::pow2(k) as int) % 2 == 1
}

/// Command codes of the ST25R95 (datasheet §4.4).
#[derive(Debug, Copy, Clone, PartialEq, Eq, Structural)]
pub enum Command {
    /// Read device identification
    Idn,
    /// Select the RF communication protocol
    ProtocolSelect,
    /// Poll for an external RF field
    PollField,
    /// Send data to a tag and receive its reply
    SendRecv,
    /// Listen for a reader command (card emulation)
    Listen,
    /// Send data to a reader (card emulation)
    Send,
    /// Enter low power mode
    Idle,
    /// Read a register
    RdReg,
    /// Write a register
    WrReg,
    /// Anti-collision filter (Type A card emulation)
    ACFilter,
    /// Echo
    Echo,
}

/// The command byte of each command.
pub open spec fn command_code(c: Command) -> u8 {
    match c {
        Command::Idn => 0x01,
        Command::ProtocolSelect => 0x02,
        Command::PollField => 0x03,
        Command::SendRecv => 0x04,
        Command::Listen => 0x05,
        Command::Send => 0x06,
        Command::Idle => 0x07,
        Command::RdReg => 0x08,
        Command::WrReg => 0x09,
        Command::ACFilter => 0x0D,
        Command::Echo => 0x55,
    }
}

/// The command named by a byte, or the byte itself when it names none.
pub open spec fn command_of(value: u8) -> core::result::Result<Command, u8> {
    if value == 0x01 {
        Ok(Command::Idn)
    } else if value == 0x02 {
        Ok(Command::ProtocolSelect)
    } else if value == 0x03 {
        Ok(Command::PollField)
    } else if value == 0x04 {
        Ok(Command::SendRecv)
    } else if value == 0x05 {
        Ok(Command::Listen)
    } else if value == 0x06 {
        Ok(Command::Send)
    } else if value == 0x07 {
        Ok(Command::Idle)
    } else if value == 0x08 {
        Ok(Command::RdReg)
    } else if value == 0x09 {
        Ok(Command::WrReg)
    } else if value == 0x0D {
        Ok(Command::ACFilter)
    } else if value == 0x55 {
        Ok(Command::Echo)
    } else {
        Err(value)
    }
}

impl Command {
    /// The byte sent on the wire for this command.
    pub fn code(self) -> (r: u8)
        ensures
            r == command_code(self),
    {
        match self {
            Command::Idn => 0x01,
            Command::ProtocolSelect => 0x02,
            Command::PollField => 0x03,
            Command::SendRecv => 0x04,
            Command::Listen => 0x05,
            Command::Send => 0x06,
            Command::Idle => 0x07,
            Command::RdReg => 0x08,
            Command::WrReg => 0x09,
            Command::ACFilter => 0x0D,
            Command::Echo => 0x55,
        }
    }
}

impl TryFrom<u8> for Command {
    type Error = u8;

    fn try_from(value: u8) -> (r: core::result::Result<Self, u8>)
        ensures
            r == command_of(value),
    {
        match value {
            0x01 => Ok(Self::Idn),
            0x02 => Ok(Self::ProtocolSelect),
            0x03 => Ok(Self::PollField),
            0x04 => Ok(Self::SendRecv),
            0x05 => Ok(Self::Listen),
            0x06 => Ok(Self::Send),
            0x07 => Ok(Self::Idle),
            0x08 => Ok(Self::RdReg),
            0x09 => Ok(Self::WrReg),
            0x0D => Ok(Self::ACFilter),
            0x55 => Ok(Self::Echo),
            c => Err(c),
        }
    }
}

impl vstd::std_specs::convert::TryFromSpecImpl<u8> for Command {
    open spec fn obeys_try_from_spec() -> bool {
        true
    }

    open spec fn try_from_spec(v: u8) -> core::result::Result<Self, u8> {
        command_of(v)
    }
}

/// Every command byte names its command, and every byte that names a command
/// is that command's byte.
pub proof fn lemma_command_code_roundtrip(c: Command, value: u8)
    ensures
        command_of(command_code(c)) == Ok::<Command, u8>(c),
        command_of(value) matches Ok(d) ==> command_code(d) == value,
{
}

/// Parameters of a PollField command that waits for the field to change.
///
/// The chip waits `(presc + 1) * (timer + 1) / 13.56` µs at most.
#[derive(Debug, Copy, Clone, Default)]
pub struct WaitForField {
    /// Wait for the field to appear (`true`) or to disappear (`false`)
    pub apparance: bool,
    /// Prescaler of the timeout
    pub presc: u8,
    /// Timer of the timeout
    pub timer: u8,
}

/// Frequency of the low-frequency oscillator used in low power mode.
#[derive(Debug, Copy, Clone, PartialEq, Eq, Structural)]
pub enum LFOFreq {
    /// 32 kHz
    KHz32,
    /// 16 kHz
    KHz16,
    /// 8 kHz
    KHz8,
    /// 4 kHz
    KHz4,
}

impl Default for LFOFreq {
    fn default() -> (r: Self)
        ensures
            r == LFOFreq::KHz32,
    {
        LFOFreq::KHz32
    }
}

/// The two-bit field that selects each LFO frequency.
pub open spec fn lfo_bits(f: LFOFreq) -> u8 {
    match f {
        LFOFreq::KHz32 => 0,
        LFOFreq::KHz16 => 1,
        LFOFreq::KHz8 => 2,
        LFOFreq::KHz4 => 3,
    }
}

/// The LFO frequency selected by a two-bit field.
pub open spec fn lfo_of(value: u8) -> core::result::Result<LFOFreq, ()> {
    if value == 0 {
        Ok(LFOFreq::KHz32)
    } else if value == 1 {
        Ok(LFOFreq::KHz16)
    } else if value == 2 {
        Ok(LFOFreq::KHz8)
    } else if value == 3 {
        Ok(LFOFreq::KHz4)
    } else {
        Err(())
    }
}

/// The reference period tREF (256 LFO periods) in milliseconds.
pub open spec fn t_ref_ms_of(f: LFOFreq) -> u8 {
    match f {
        LFOFreq::KHz32 => 8,
        LFOFreq::KHz16 => 16,
        LFOFreq::KHz8 => 32,
        LFOFreq::KHz4 => 64,
    }
}

impl LFOFreq {
    /// The two-bit field that selects this frequency.
    pub fn bits(self) -> (r: u8)
        ensures
            r == lfo_bits(self),
    {
        match self {
            LFOFreq::KHz32 => 0,
            LFOFreq::KHz16 => 1,
            LFOFreq::KHz8 => 2,
            LFOFreq::KHz4 => 3,
        }
    }

    /// The reference period tREF, 256 LFO periods, in milliseconds.
    pub fn t_ref_ms(self) -> (r: u8)
        ensures
            r == t_ref_ms_of(self),
    {
        match self {
            LFOFreq::KHz32 => 8,
            LFOFreq::KHz16 => 16,
            LFOFreq::KHz8 => 32,
            LFOFreq::KHz4 => 64,
        }
    }
}

impl TryFrom<u8> for LFOFreq {
    type Error = ();

    fn try_from(value: u8) -> (r: core::result::Result<Self, ()>)
        ensures
            r == lfo_of(value),
    {
        match value {
            0b00 => Ok(LFOFreq::KHz32),
            0b01 => Ok(LFOFreq::KHz16),
            0b10 => Ok(LFOFreq::KHz8),
            0b11 => Ok(LFOFreq::KHz4),
            _ => Err(()),
        }
    }
}

impl vstd::std_specs::convert::TryFromSpecImpl<u8> for LFOFreq {
    open spec fn obeys_try_from_spec() -> bool {
        true
    }

    open spec fn try_from_spec(v: u8) -> core::result::Result<Self, ()> {
        lfo_of(v)
    }
}

/// Wake-up sources of the Idle command, and the LFO frequency.
///
/// As a byte (datasheet, Idle command): bits 7-6 the LFO frequency, bit 4
/// a low pulse on SPI_SS, bit 3 a low pulse on IRQ_IN, bit 2 field detection,
/// bit 1 tag detection, bit 0 timeout.
#[derive(Debug, Copy, Clone, PartialEq, Eq, Structural)]
pub struct WakeUpSource {
    pub lfo_freq: LFOFreq,
    pub ss_low_pulse: bool,
    pub irq_in_low_pulse: bool,
    pub field_detection: bool,
    pub tag_detection: bool,
    pub timeout: bool,
}

impl Default for WakeUpSource {
    fn default() -> (r: Self)
        ensures
            r == (WakeUpSource {
                lfo_freq: LFOFreq::KHz32,
                ss_low_pulse: false,
                irq_in_low_pulse: false,
                field_detection: false,
                tag_detection: false,
                timeout: false,
            }),
    {
        WakeUpSource {
            lfo_freq: LFOFreq::KHz32,
            ss_low_pulse: false,
            irq_in_low_pulse: false,
            field_detection: false,
            tag_detection: false,
            timeout: false,
        }
    }
}

/// The byte that encodes a set of wake-up sources.
pub open spec fn wus_byte(w: WakeUpSource) -> u8 {
    (lfo_bits(w.lfo_freq) * 64 + bit_of(w.ss_low_pulse) * 16 + bit_of(w.irq_in_low_pulse) * 8
        + bit_of(w.field_detection) * 4 + bit_of(w.tag_detection) * 2 + bit_of(w.timeout)) as u8
}

/// The wake-up sources encoded by a byte; bit 5 is ignored.
pub open spec fn wus_of(v: u8) -> WakeUpSource {
    WakeUpSource {
        lfo_freq: lfo_of((v / 64) as u8)->Ok_0,
        ss_low_pulse: (v / 16) % 2 == 1,
        irq_in_low_pulse: (v / 8) % 2 == 1,
        field_detection: (v / 4) % 2 == 1,
        tag_detection: (v / 2) % 2 == 1,
        timeout: v % 2 == 1,
    }
}

fn flag(b: bool, weight: u8) -> (r: u8)
    ensures
        r == bit_of(b) * weight,
        r <= weight,
{
    if b {
        weight
    } else {
        0
    }
}

impl From<WakeUpSource> for u8 {
    fn from(wus: WakeUpSource) -> (r: Self)
        ensures
            r == wus_byte(wus),
    {
        wus.lfo_freq.bits() * 64 + flag(wus.ss_low_pulse, 16) + flag(wus.irq_in_low_pulse, 8)
            + flag(wus.field_detection, 4) + flag(wus.tag_detection, 2) + flag(wus.timeout, 1)
    }
}

impl vstd::std_specs::convert::FromSpecImpl<WakeUpSource> for u8 {
    open spec fn obeys_from_spec() -> bool {
        true
    }

    open spec fn from_spec(v: WakeUpSource) -> Self {
        wus_byte(v)
    }
}

impl TryFrom<u8> for WakeUpSource {
    type Error = ();

    fn try_from(value: u8) -> (r: core::result::Result<Self, ()>)
        ensures
            r == Ok::<WakeUpSource, ()>(wus_of(value)),
    {
        let lfo_freq = match LFOFreq::try_from(value / 64) {
            Ok(f) => f,
            Err(e) => return Err(e),
        };
        Ok(WakeUpSource {
            lfo_freq,
            ss_low_pulse: (value / 16) % 2 == 1,
            irq_in_low_pulse: (value / 8) % 2 == 1,
            field_detection: (value / 4) % 2 == 1,
            tag_detection: (value / 2) % 2 == 1,
            timeout: value % 2 == 1,
        })
    }
}

impl vstd::std_specs::convert::TryFromSpecImpl<u8> for WakeUpSource {
    open spec fn obeys_try_from_spec() -> bool {
        true
    }

    open spec fn try_from_spec(v: u8) -> core::result::Result<Self, ()> {
        Ok(wus_of(v))
    }
}

/// Decoding the byte of a set of wake-up sources gives the same set back.
pub proof fn lemma_wake_up_source_roundtrip(w: WakeUpSource)
    ensures
        wus_of(wus_byte(w)) == w,
{
}

/// Encoding the decoded sources of a byte gives the byte with bit 5 cleared.
pub proof fn lemma_wake_up_byte_roundtrip(v: u8)
    ensures
        wus_byte(wus_of(v)) == (if (v / 32) % 2 == 1 { v - 32 } else { v as int }),
{
    assert((v / 64) * 64 + ((v / 16) % 2) * 16 + ((v / 8) % 2) * 8 + ((v / 4) % 2) * 4 + ((v / 2)
        % 2) * 2 + v % 2 == if (v / 32) % 2 == 1 {
        v - 32
    } else {
        v as int
    }) by (bit_vector);
    assert(v / 64 <= 3) by (bit_vector);
}

/// Power settings of one phase of the Idle command (datasheet, Idle command).
///
/// As a 16-bit word: bit 9 field detector, bit 8 IREF, bit 7 DAC comparator
/// high, bit 5 LFO, bit 4 HFO, bit 3 VDDA, bit 2 hibernate, bit 0 sleep.
#[derive(Debug, Copy, Clone, PartialEq, Eq, Structural)]
pub struct CtrlResConf {
    pub field_detector_enabled: bool,
    pub iref_enabled: bool,
    pub dac_comp_high: bool,
    pub lfo_enabled: bool,
    pub hfo_enabled: bool,
    pub vdda_enabled: bool,
    pub hibernate_state_enabled: bool,
    pub sleep_state_enabled: bool,
}

/// Hibernate: everything off but the hibernate state.
pub open spec fn ctrl_hibernate() -> CtrlResConf {
    CtrlResConf {
        field_detector_enabled: false,
        iref_enabled: false,
        dac_comp_high: false,
        lfo_enabled: false,
        hfo_enabled: false,
        vdda_enabled: false,
        hibernate_state_enabled: true,
        sleep_state_enabled: false,
    }
}

impl Default for CtrlResConf {
    fn default() -> (r: Self)
        ensures
            r == ctrl_hibernate(),
    {
        Self {
            field_detector_enabled: false,
            iref_enabled: false,
            dac_comp_high: false,
            lfo_enabled: false,
            hfo_enabled: false,
            vdda_enabled: false,
            hibernate_state_enabled: true,
            sleep_state_enabled: false,
        }
    }
}

/// The 16-bit word of a power setting.
pub open spec fn ctrl_word(c: CtrlResConf) -> u16 {
    (bit_of(c.field_detector_enabled) * 512 + bit_of(c.iref_enabled) * 256 + bit_of(
        c.dac_comp_high,
    ) * 128 + bit_of(c.lfo_enabled) * 32 + bit_of(c.hfo_enabled) * 16 + bit_of(c.vdda_enabled)
        * 8 + bit_of(c.hibernate_state_enabled) * 4 + bit_of(c.sleep_state_enabled)) as u16
}

fn flag16(b: bool, weight: u16) -> (r: u16)
    ensures
        r == bit_of(b) * weight,
        r <= weight,
{
    if b {
        weight
    } else {
        0
    }
}

impl From<CtrlResConf> for u16 {
    fn from(ctrl: CtrlResConf) -> (r: Self)
        ensures
            r == ctrl_word(ctrl),
    {
        let high = flag16(ctrl.field_detector_enabled, 512) + flag16(ctrl.iref_enabled, 256);
        let mid = flag16(ctrl.dac_comp_high, 128) + flag16(ctrl.lfo_enabled, 32) + flag16(
            ctrl.hfo_enabled,
            16,
        );
        let low = flag16(ctrl.vdda_enabled, 8) + flag16(ctrl.hibernate_state_enabled, 4) + flag16(
            ctrl.sleep_state_enabled,
            1,
        );
        high + mid + low
    }
}

impl vstd::std_specs::convert::FromSpecImpl<CtrlResConf> for u16 {
    open spec fn obeys_from_spec() -> bool {
        true
    }

    open spec fn from_spec(v: CtrlResConf) -> Self {
        ctrl_word(v)
    }
}

/// Comparator thresholds of the tag detector.
#[derive(Debug, Copy, Clone, PartialEq, Eq, Structural)]
pub struct DacData {
    /// Lower compare value; 0x00 during calibration.
    pub low: u8,
    /// Higher compare value; the variable of the calibration.
    pub high: u8,
}

/// Parameters of the Idle command.
#[derive(Debug, Copy, Clone, PartialEq, Eq, Structural)]
pub struct IdleParams {
    /// Wake-up sources and LFO frequency
    pub wus: WakeUpSource,
    /// Power settings when entering low power mode
    pub enter_ctrl: CtrlResConf,
    /// Power settings during the wake-up periods
    pub wu_ctrl: CtrlResConf,
    /// Power settings when leaving low power mode
    pub leave_ctrl: CtrlResConf,
    /// Period between wake-ups, in tREF units minus two
    pub wu_period: u8,
    /// Wait for the HFO to settle
    pub osc_start: u8,
    /// Wait for the DAC to settle
    pub dac_start: u8,
    /// Tag detector thresholds
    pub dac_data: DacData,
    /// Number of field swings per tag detection
    pub swing_count: u8,
    /// Number of wake-up periods before the timeout wake-up
    pub max_sleep: u8,
}

/// The default leave-control setting: HFO and VDDA on.
pub open spec fn ctrl_leave_default() -> CtrlResConf {
    CtrlResConf {
        field_detector_enabled: false,
        iref_enabled: false,
        dac_comp_high: false,
        lfo_enabled: false,
        hfo_enabled: true,
        vdda_enabled: true,
        hibernate_state_enabled: false,
        sleep_state_enabled: false,
    }
}

/// The default Idle parameters.
pub open spec fn idle_params_default() -> IdleParams {
    IdleParams {
        wus: WakeUpSource {
            lfo_freq: LFOFreq::KHz32,
            ss_low_pulse: false,
            irq_in_low_pulse: false,
            field_detection: false,
            tag_detection: false,
            timeout: false,
        },
        enter_ctrl: ctrl_hibernate(),
        wu_ctrl: ctrl_hibernate(),
        leave_ctrl: ctrl_leave_default(),
        wu_period: 0x20,
        osc_start: 0x60,
        dac_start: 0x60,
        dac_data: DacData { low: 0x64, high: 0x74 },
        swing_count: 0x3F,
        max_sleep: 0x08,
    }
}

impl Default for IdleParams {
    fn default() -> (r: Self)
        ensures
            r == idle_params_default(),
    {
        Self {
            wus: WakeUpSource::default(),
            enter_ctrl: CtrlResConf::default(),
            wu_ctrl: CtrlResConf::default(),
            leave_ctrl: CtrlResConf {
                field_detector_enabled: false,
                iref_enabled: false,
                dac_comp_high: false,
                lfo_enabled: false,
                hfo_enabled: true,
                vdda_enabled: true,
                hibernate_state_enabled: false,
                sleep_state_enabled: false,
            },
            wu_period: 0x20,
            osc_start: 0x60,
            dac_start: 0x60,
            dac_data: DacData { low: 0x64, high: 0x74 },
            swing_count: 0x3F,
            max_sleep: 0x08,
        }
    }
}

/// The 14 payload bytes of an Idle command: the wake-up byte, the three
/// power words in little-endian order, then the timing and detector bytes.
pub open spec fn idle_payload(p: IdleParams) -> Seq<u8> {
    seq![
        wus_byte(p.wus),
        (ctrl_word(p.enter_ctrl) % 256) as u8,
        (ctrl_word(p.enter_ctrl) / 256) as u8,
        (ctrl_word(p.wu_ctrl) % 256) as u8,
        (ctrl_word(p.wu_ctrl) / 256) as u8,
        (ctrl_word(p.leave_ctrl) % 256) as u8,
        (ctrl_word(p.leave_ctrl) / 256) as u8,
        p.wu_period,
        p.osc_start,
        p.dac_start,
        p.dac_data.low,
        p.dac_data.high,
        p.swing_count,
        p.max_sleep,
    ]
}

/// Time before the timeout wake-up, in microseconds:
/// `tREF * (wu_period + 2) * (max_sleep + 1)`.
pub open spec fn idle_timeout_us(p: IdleParams) -> int {
    t_ref_ms_of(p.wus.lfo_freq) * 1000 * (p.wu_period + 2) * (p.max_sleep + 1)
}

impl IdleParams {
    /// The payload of the Idle command.
    pub fn data(self) -> (r: [u8; 14])
        ensures
            r@ == idle_payload(self),
    {
        let wus: u8 = self.wus.into();
        let enter_ctrl: u16 = self.enter_ctrl.into();
        let wu_ctrl: u16 = self.wu_ctrl.into();
        let leave_ctrl: u16 = self.leave_ctrl.into();
        let r = [
            wus,
            (enter_ctrl % 256) as u8,
            (enter_ctrl / 256) as u8,
            (wu_ctrl % 256) as u8,
            (wu_ctrl / 256) as u8,
            (leave_ctrl % 256) as u8,
            (leave_ctrl / 256) as u8,
            self.wu_period,
            self.osc_start,
            self.dac_start,
            self.dac_data.low,
            self.dac_data.high,
            self.swing_count,
            self.max_sleep,
        ];
        assert(r@ =~= idle_payload(self));
        r
    }

    /// Time the chip sleeps before a timeout wake-up, in whole microseconds.
    pub fn duration_before_timeout_us(self) -> (r: u64)
        ensures
            r == idle_timeout_us(self),
    {
        let t_ref_us: u64 = self.wus.lfo_freq.t_ref_ms() as u64 * 1000;
        let periods: u64 = self.wu_period as u64 + 2;
        let sleeps: u64 = self.max_sleep as u64 + 1;
        assert(t_ref_us * periods <= 64000 * 257) by (nonlinear_arith)
            requires
                t_ref_us <= 64000,
                periods <= 257,
        ;
        assert(t_ref_us * periods * sleeps <= 64000 * 257 * 256) by (nonlinear_arith)
            requires
                t_ref_us * periods <= 64000 * 257,
                sleeps <= 256,
        ;
        t_ref_us * periods * sleeps
    }
}

/// The bits of a power-management word (datasheet Table 20): field
/// detector in bit 9, IREF in bit 8, DAC comparator high in bit 7, LFO in
/// bit 5, HFO in bit 4, VDDA in bit 3, hibernate in bit 2, sleep in bit 0;
/// bits 15-10, 6 and 1 are clear.
pub proof fn lemma_ctrl_word_bits(c: CtrlResConf)
    ensures
        (ctrl_word(c) / 512 % 2 == 1) == c.field_detector_enabled,
        (ctrl_word(c) / 256 % 2 == 1) == c.iref_enabled,
        (ctrl_word(c) / 128 % 2 == 1) == c.dac_comp_high,
        ctrl_word(c) / 64 % 2 == 0,
        (ctrl_word(c) / 32 % 2 == 1) == c.lfo_enabled,
        (ctrl_word(c) / 16 % 2 == 1) == c.hfo_enabled,
        (ctrl_word(c) / 8 % 2 == 1) == c.vdda_enabled,
        (ctrl_word(c) / 4 % 2 == 1) == c.hibernate_state_enabled,
        ctrl_word(c) / 2 % 2 == 0,
        (ctrl_word(c) % 2 == 1) == c.sleep_state_enabled,
        ctrl_word(c) < 1024,
{
}

/// The layout of an Idle payload (datasheet Table 19): the wake-up byte
/// with each source in its own bit (timeout bit 0, tag detection bit 1,
/// field detection bit 2, IRQ_IN pulse bit 3, SPI SS pulse bit 4) and the
/// LFO frequency in bits 7-6 (32, 16, 8, 4 kHz as 0 to 3); the enter,
/// wake-up and leave power words, each least significant byte first; then
/// the wake-up period, the oscillator and DAC start times, the low and high
/// comparator thresholds, the swing count and, last, the max sleep count.
pub proof fn lemma_idle_payload_layout(p: IdleParams)
    ensures
        idle_payload(p).len() == 14,
        (idle_payload(p)[0] % 2 == 1) == p.wus.timeout,
        (idle_payload(p)[0] / 2 % 2 == 1) == p.wus.tag_detection,
        (idle_payload(p)[0] / 4 % 2 == 1) == p.wus.field_detection,
        (idle_payload(p)[0] / 8 % 2 == 1) == p.wus.irq_in_low_pulse,
        (idle_payload(p)[0] / 16 % 2 == 1) == p.wus.ss_low_pulse,
        idle_payload(p)[0] / 32 % 2 == 0,
        p.wus.lfo_freq == LFOFreq::KHz32 ==> idle_payload(p)[0] / 64 == 0,
        p.wus.lfo_freq == LFOFreq::KHz16 ==> idle_payload(p)[0] / 64 == 1,
        p.wus.lfo_freq == LFOFreq::KHz8 ==> idle_payload(p)[0] / 64 == 2,
        p.wus.lfo_freq == LFOFreq::KHz4 ==> idle_payload(p)[0] / 64 == 3,
        idle_payload(p)[1] + 256 * idle_payload(p)[2] == ctrl_word(p.enter_ctrl),
        idle_payload(p)[3] + 256 * idle_payload(p)[4] == ctrl_word(p.wu_ctrl),
        idle_payload(p)[5] + 256 * idle_payload(p)[6] == ctrl_word(p.leave_ctrl),
        idle_payload(p)[7] == p.wu_period,
        idle_payload(p)[8] == p.osc_start,
        idle_payload(p)[9] == p.dac_start,
        idle_payload(p)[10] == p.dac_data.low,
        idle_payload(p)[11] == p.dac_data.high,
        idle_payload(p)[12] == p.swing_count,
        idle_payload(p)[13] == p.max_sleep,
{
    lemma_ctrl_word_bits(p.enter_ctrl);
    lemma_ctrl_word_bits(p.wu_ctrl);
    lemma_ctrl_word_bits(p.leave_ctrl);
}

/// The command codes of datasheet §4.4, and that a byte names the command
/// that has it as its code, or none.
pub proof fn lemma_command_codes(c: Command, v: u8)
    ensures
        command_code(Command::Idn) == 0x01,
        command_code(Command::ProtocolSelect) == 0x02,
        command_code(Command::PollField) == 0x03,
        command_code(Command::SendRecv) == 0x04,
        command_code(Command::Listen) == 0x05,
        command_code(Command::Send) == 0x06,
        command_code(Command::Idle) == 0x07,
        command_code(Command::RdReg) == 0x08,
        command_code(Command::WrReg) == 0x09,
        command_code(Command::ACFilter) == 0x0D,
        command_code(Command::Echo) == 0x55,
        command_of(v) == Ok::<Command, u8>(c) <==> command_code(c) == v,
        command_of(v) is Err ==> command_of(v) == Err::<Command, u8>(v),
{
}

/// The frequency of each LFO setting, in kHz.
pub open spec fn lfo_khz(f: LFOFreq) -> nat {
    match f {
        LFOFreq::KHz32 => 32,
        LFOFreq::KHz16 => 16,
        LFOFreq::KHz8 => 8,
        LFOFreq::KHz4 => 4,
    }
}

/// The LFO field halves the 32 kHz frequency once per step (0 to 3), the
/// reference period tREF is 256 LFO periods, and a field decodes to the
/// frequency that has it.
pub proof fn lemma_lfo_codes(f: LFOFreq, v: u8)
    ensures
        lfo_khz(f) * (if lfo_bits(f) == 0 { 1nat } else if lfo_bits(f) == 1 { 2 } else if lfo_bits(f) == 2 { 4 } else { 8 }) == 32,
        lfo_bits(f) <= 3,
        lfo_khz(f) * t_ref_ms_of(f) == 256,
        lfo_of(v) == Ok::<LFOFreq, ()>(f) <==> lfo_bits(f) == v,
        lfo_of(v) is Err <==> v > 3,
{
}

/// A wake-up byte read back from the chip (datasheet Table 19) reports
/// each source from its own bit: timeout bit 0, tag detection bit 1, field
/// detection bit 2, IRQ_IN pulse bit 3, SPI SS pulse bit 4; the LFO
/// frequency from bits 7-6.
pub proof fn lemma_wake_up_byte_bits(v: u8)
    ensures
        wus_of(v).timeout == (v % 2 == 1),
        wus_of(v).tag_detection == (v / 2 % 2 == 1),
        wus_of(v).field_detection == (v / 4 % 2 == 1),
        wus_of(v).irq_in_low_pulse == (v / 8 % 2 == 1),
        wus_of(v).ss_low_pulse == (v / 16 % 2 == 1),
        v / 64 == 0 ==> wus_of(v).lfo_freq == LFOFreq::KHz32,
        v / 64 == 1 ==> wus_of(v).lfo_freq == LFOFreq::KHz16,
        v / 64 == 2 ==> wus_of(v).lfo_freq == LFOFreq::KHz8,
        v / 64 == 3 ==> wus_of(v).lfo_freq == LFOFreq::KHz4,
{
}

/// The default Idle: wake-up byte 0x00 (32 kHz LFO, no source bit set);
/// enter and wake-up words in hibernate, leave word with HFO and VDDA;
/// wake-up period 0x20, oscillator and DAC start 0x60, comparator
/// thresholds 0x64 and 0x74, 0x3F swings and a max sleep of 8.
pub proof fn lemma_idle_default_payload()
    ensures
        idle_payload(idle_params_default()) == seq![
            0x00u8, 0x04, 0x00, 0x04, 0x00, 0x18, 0x00, 0x20, 0x60, 0x60, 0x64, 0x74, 0x3F, 0x08,
        ],
{
    assert(idle_payload(idle_params_default()) =~= seq![
        0x00u8, 0x04, 0x00, 0x04, 0x00, 0x18, 0x00, 0x20, 0x60, 0x60, 0x64, 0x74, 0x3F, 0x08,
    ]);
}

} // verus!
