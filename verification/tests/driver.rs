use std::cell::RefCell;
use std::collections::VecDeque;
use std::rc::Rc;

use st25r95::arc_b::ArcB;
use st25r95::iso14443a::card_emulation::AntiColState;
use st25r95::iso14443a::UID;
use st25r95::mock::{MockGpio, MockSpi};
use st25r95::timer_window::TimerWindow;
use st25r95::{
    check_identification, felica, iso14443b, CardEmulation, Command, Error, FeliCa, FieldOff, FieldOn, FrameData,
    IdleParams, Iso14443A, Iso14443B, LFOFreq, ModulationIndex, NoProtocol, NoRole, PollFlags,
    ReadResponse, Reader, ReceiverGain, Result, St25r95, St25r95Error, St25r95Gpio, St25r95Spi,
    WakeUpSource, DEFAULT_RESPONSE_TIMEOUT_MS, ECHO_BYTE, ECHO_RESPONSE_MAX_LEN, MAX_BUFFER_SIZE,
    MAX_COMMAND_DATA_LEN, MAX_PP,
};

/// Identification answered while the driver is being set up.
const IDN: &[u8] = b"NFC FS2JAST4\0\x00\x01";

/// What the test SPI link has seen and what it answers.
///
/// Until `live` is set the link answers like a healthy chip, so that the
/// driver can be created and brought into the state a test needs; from then
/// on it answers as the test configured it.
#[derive(Default)]
struct Wire {
    live: bool,
    command: Option<Command>,
    data: Vec<u8>,
    sod: bool,
    response_code: u8,
    response_data: Vec<u8>,
    wake_sources: VecDeque<u8>,
    echo: Option<Vec<u8>>,
    echo_reported: Option<usize>,
}

#[derive(Clone, Default)]
struct TestSpi(Rc<RefCell<Wire>>);

fn frame(code: u8, data: &[u8]) -> ReadResponse {
    let mut payload = FrameData::new();
    payload.extend_from_slice(data).unwrap();
    ReadResponse {
        code,
        data: payload,
    }
}

impl TestSpi {
    fn with_response_code(response_code: u8) -> Self {
        let spi = Self::default();
        spi.0.borrow_mut().response_code = response_code;
        spi
    }

    fn with_wake_sources(wake_sources: &[u8]) -> Self {
        let spi = Self::default();
        spi.0.borrow_mut().wake_sources = wake_sources.iter().copied().collect();
        spi
    }

    fn with_echo(echo: &[u8]) -> Self {
        let spi = Self::default();
        spi.0.borrow_mut().echo = Some(echo.to_vec());
        spi
    }

    fn reporting(echo: &[u8], reported_len: usize) -> Self {
        let spi = Self::with_echo(echo);
        spi.0.borrow_mut().echo_reported = Some(reported_len);
        spi
    }

    fn go_live(&self) {
        let mut wire = self.0.borrow_mut();
        wire.live = true;
        wire.command = None;
        wire.data.clear();
        wire.sod = false;
    }

    fn command(&self) -> Option<Command> {
        self.0.borrow().command
    }

    fn data(&self) -> Vec<u8> {
        self.0.borrow().data.clone()
    }

    fn sod(&self) -> bool {
        self.0.borrow().sod
    }
}

impl St25r95Spi for TestSpi {
    fn poll(&mut self, _flags: PollFlags) -> Result<()> {
        Ok(())
    }

    fn reset(&mut self) -> Result<()> {
        Ok(())
    }

    fn send_command(&mut self, cmd: Command, data: &[u8], sod: bool) -> Result<()> {
        let mut wire = self.0.borrow_mut();
        wire.command = Some(cmd);
        wire.data = data.to_vec();
        wire.sod = sod;
        Ok(())
    }

    fn read_data(&mut self) -> Result<ReadResponse> {
        let mut wire = self.0.borrow_mut();
        if !wire.live {
            return Ok(match wire.command {
                Some(Command::Idn) => frame(0, IDN),
                _ => frame(0, &[]),
            });
        }
        if let Some(wake_source) = wire.wake_sources.pop_front() {
            return Ok(frame(0, &[wake_source]));
        }
        if wire.command == Some(Command::WrReg) {
            return Ok(frame(wire.response_code, &[]));
        }
        Ok(frame(wire.response_code, &wire.response_data))
    }

    fn read_echo(&mut self, buf: &mut [u8; ECHO_RESPONSE_MAX_LEN]) -> Result<usize> {
        let wire = self.0.borrow();
        match &wire.echo {
            Some(echo) if wire.live => {
                let len = echo.len().min(buf.len());
                buf[..len].copy_from_slice(&echo[..len]);
                Ok(wire.echo_reported.unwrap_or(echo.len()))
            }
            _ => {
                buf[0] = ECHO_BYTE;
                Ok(1)
            }
        }
    }

    fn flush(&mut self) -> Result<()> {
        Ok(())
    }
}

/// GPIO with a virtual clock.
///
/// Once live, `delays[n]` is how long, in milliseconds, IRQ_OUT takes to
/// fall for the `n`th wait; that wait succeeds only if the driver was
/// willing to wait at least that long. Every requested deadline is
/// recorded.
#[derive(Default)]
struct Clock {
    live: bool,
    delays: Vec<u32>,
    requested: Vec<u32>,
}

#[derive(Clone, Default)]
struct TestGpio(Rc<RefCell<Clock>>);

impl TestGpio {
    fn sequenced(delays: &[u32]) -> Self {
        let gpio = Self::default();
        gpio.0.borrow_mut().delays = delays.to_vec();
        gpio
    }

    fn go_live(&self) {
        self.0.borrow_mut().live = true;
    }

    fn requested(&self) -> Vec<u32> {
        self.0.borrow().requested.clone()
    }
}

impl St25r95Gpio for TestGpio {
    fn irq_in_pulse_low(&mut self) {}

    fn wait_irq_out_falling_edge(&mut self, timeout: u32) -> core::result::Result<(), ()> {
        let mut clock = self.0.borrow_mut();
        if !clock.live {
            return Ok(());
        }
        let index = clock.requested.len();
        let delay = clock.delays.get(index).copied().unwrap_or(0);
        clock.requested.push(timeout);
        if timeout >= delay {
            Ok(())
        } else {
            Err(())
        }
    }
}

type Driver<F, R, P> = St25r95<TestSpi, TestGpio, F, R, P>;

fn unselected(spi: &TestSpi, gpio: &TestGpio) -> Driver<FieldOff, NoRole, NoProtocol> {
    St25r95::new(spi.clone(), gpio.clone()).unwrap()
}

fn unselected_driver(spi: TestSpi) -> Driver<FieldOff, NoRole, NoProtocol> {
    let nfc = unselected(&spi, &TestGpio::default());
    spi.go_live();
    nfc
}

fn reader_a(spi: TestSpi) -> Driver<FieldOn, Reader, Iso14443A> {
    let nfc = unselected(&spi, &TestGpio::default())
        .protocol_select_iso14443a(Default::default())
        .unwrap();
    spi.go_live();
    nfc
}

fn reader_b(spi: TestSpi) -> Driver<FieldOn, Reader, Iso14443B> {
    let nfc = unselected(&spi, &TestGpio::default())
        .protocol_select_iso14443b(Default::default())
        .unwrap();
    spi.go_live();
    nfc
}

fn reader_felica(spi: TestSpi) -> Driver<FieldOn, Reader, FeliCa> {
    let nfc = unselected(&spi, &TestGpio::default())
        .protocol_select_felica(Default::default())
        .unwrap();
    spi.go_live();
    nfc
}

fn card_emulation_with_spi(spi: TestSpi, listening: bool) -> Driver<FieldOn, CardEmulation, Iso14443A> {
    let mut card = unselected(&spi, &TestGpio::default())
        .protocol_select_ce_iso14443a(Default::default())
        .unwrap();
    if listening {
        card.listen().unwrap();
    }
    spi.go_live();
    card
}

fn assert_wr_reg(spi: &TestSpi, data: &[u8]) {
    assert_eq!(spi.command(), Some(Command::WrReg));
    assert_eq!(spi.data(), data);
    assert!(!spi.sod());
}

fn assert_ac_filter(spi: &TestSpi, data: &[u8]) {
    assert_eq!(spi.command(), Some(Command::ACFilter));
    assert_eq!(spi.data(), data);
    assert!(!spi.sod());
}

fn assert_hw_error<T>(result: Result<T>, expected: St25r95Error) {
    match result {
        Err(Error::Hw(actual)) => assert_eq!(actual, expected),
        Err(error) => panic!("expected hardware error, got {error:?}"),
        Ok(_) => panic!("expected hardware error, got success"),
    }
}

fn timeout_wake() -> u8 {
    u8::from(WakeUpSource {
        lfo_freq: LFOFreq::KHz32,
        ss_low_pulse: false,
        irq_in_low_pulse: false,
        field_detection: false,
        tag_detection: false,
        timeout: true,
    })
}

fn tag_detection_wake() -> u8 {
    u8::from(WakeUpSource {
        lfo_freq: LFOFreq::KHz32,
        ss_low_pulse: false,
        irq_in_low_pulse: false,
        field_detection: false,
        tag_detection: true,
        timeout: false,
    })
}

fn calibration_reader(wake_sources: &[u8]) -> Driver<FieldOff, NoRole, NoProtocol> {
    unselected_driver(TestSpi::with_wake_sources(wake_sources))
}

#[test]
fn mock_driver_runs_a_session() {
    let mut nfc = St25r95::new(MockSpi::default(), MockGpio).unwrap();
    let (name, rom_crc) = nfc.idn().unwrap();
    assert_eq!(&name.as_bytes()[..3], b"NFC");
    assert_eq!(rom_crc, 0x0001);
    assert_eq!(nfc.echo(), Ok(()));
    let mut reader = nfc.protocol_select_iso14443a(Default::default()).unwrap();
    let response = reader.send_receive(&[0x26]).unwrap();
    assert_eq!(response.data.as_slice(), &[0x44, 0x00]);
    assert_eq!(
        reader.read_arc_b(),
        Ok(ArcB {
            modulation_index: ModulationIndex::Percent17,
            receiver_gain: ReceiverGain::Db27,
        })
    );
    assert_eq!(reader.poll_field(None), Ok(true));
    assert_eq!(
        reader.idle(IdleParams::default(), 1_000).map(|wus| wus.timeout),
        Ok(true)
    );
    let nfc = reader.field_off().unwrap();
    let mut card = nfc.protocol_select_ce_iso14443a(Default::default()).unwrap();
    assert_eq!(card.listen(), Ok(()));
    assert!(card.is_listening());
    assert_eq!(card.cancel_listen(), Ok(()));
    assert!(!card.is_listening());
}

#[test]
fn new_rejects_a_chip_that_is_not_an_nfc_transceiver() {
    struct OtherChip;
    impl St25r95Spi for OtherChip {
        fn poll(&mut self, _flags: PollFlags) -> Result<()> {
            Ok(())
        }
        fn reset(&mut self) -> Result<()> {
            Ok(())
        }
        fn send_command(&mut self, _cmd: Command, _data: &[u8], _sod: bool) -> Result<()> {
            Ok(())
        }
        fn read_data(&mut self) -> Result<ReadResponse> {
            Ok(frame(0, b"XYZ FS2JAST4\0\x00\x01"))
        }
        fn read_echo(&mut self, buf: &mut [u8; ECHO_RESPONSE_MAX_LEN]) -> Result<usize> {
            buf[0] = ECHO_BYTE;
            Ok(1)
        }
        fn flush(&mut self) -> Result<()> {
            Ok(())
        }
    }
    assert!(matches!(
        St25r95::new(OtherChip, MockGpio),
        Err(Error::IdentificationError)
    ));
}

#[test]
fn test_felica_default_arc_b() {
    let reader = reader_felica(TestSpi::default());

    assert_eq!(
        reader.default_arc_b(),
        ArcB {
            modulation_index: ModulationIndex::Percent17,
            receiver_gain: ReceiverGain::Db34,
        }
    );
}

#[test]
fn arc_b_choices_follow_the_protocol() {
    let reader = reader_a(TestSpi::default());
    assert_eq!(
        reader.new_arc_b(ModulationIndex::Percent17, ReceiverGain::Db8),
        Err(Error::InvalidModulationIndex(0x2))
    );
    assert!(reader
        .new_arc_b(ModulationIndex::Percent95, ReceiverGain::Db8)
        .is_ok());
    assert_eq!(reader.new_timer_window(0x4F), Err(Error::InvalidU8Parameter {
        min: 0x50,
        max: 0x60,
        actual: 0x4F
    }));
    assert_eq!(reader.new_timer_window(0x58), Ok(TimerWindow(0x58)));
    assert_eq!(reader.recommended_timer_window(), TimerWindow(0x56));

    let reader = reader_b(TestSpi::default());
    assert_eq!(
        reader.new_arc_b(ModulationIndex::Percent95, ReceiverGain::Db8),
        Err(Error::InvalidModulationIndex(0xD))
    );
    assert!(reader
        .new_arc_b(ModulationIndex::Percent30, ReceiverGain::Db8)
        .is_ok());
}

#[test]
fn test_register_write_payloads() {
    let spi = TestSpi::default();
    let mut iso14443b = reader_b(spi.clone());
    let arc_b = iso14443b.default_arc_b();
    iso14443b.write_arc_b(arc_b).unwrap();
    assert_wr_reg(&spi, &[0x68, 0x00, 0x01, 0x20]);

    let spi = TestSpi::default();
    let mut card = card_emulation_with_spi(spi.clone(), false);
    let acc_a = card.default_acc_a();
    card.write_acc_a(acc_a).unwrap();
    assert_wr_reg(&spi, &[0x68, 0x00, 0x04, 0x27]);

    let spi = TestSpi::default();
    let mut iso14443a = reader_a(spi.clone());
    let timer_window = iso14443a.default_timer_window();
    iso14443a.write_timer_windows(timer_window).unwrap();
    assert_wr_reg(&spi, &[0x3A, 0x00, 0x52]);

    let spi = TestSpi::default();
    let mut felica = reader_felica(spi.clone());
    felica.enable_autodetect_filter().unwrap();
    assert_wr_reg(&spi, &[0x0A, 0x00, 0x02]);
}

#[test]
fn register_reads_select_the_index_first() {
    let spi = TestSpi::default();
    let mut card = card_emulation_with_spi(spi.clone(), false);
    {
        let mut wire = spi.0.borrow_mut();
        wire.response_data = vec![0x27];
    }
    let acc_a = card.read_acc_a().unwrap();
    assert_eq!(acc_a, card.default_acc_a());
    assert_eq!(spi.command(), Some(Command::RdReg));
    assert_eq!(spi.data(), &[0x69, 0x01, 0x00]);

    let spi = TestSpi::default();
    let mut nfc = unselected_driver(spi.clone());
    spi.0.borrow_mut().response_data = vec![0x02];
    assert_eq!(nfc.wakeup_source().map(|wus| wus.tag_detection), Ok(true));
    assert_eq!(spi.data(), &[0x62, 0x01, 0x00]);
}

#[test]
fn test_activate_ac_filter_one_uid_payload() {
    let spi = TestSpi::default();
    let mut card = card_emulation_with_spi(spi.clone(), false);

    card.activate_ac_filter(0x1234, 0x56, &[[0x01, 0x02, 0x03, 0x04]])
        .unwrap();

    assert_ac_filter(&spi, &[0x34, 0x12, 0x56, 0x01, 0x02, 0x03, 0x04]);
}

#[test]
fn test_activate_ac_filter_two_uid_payload() {
    let spi = TestSpi::default();
    let mut card = card_emulation_with_spi(spi.clone(), false);

    card.activate_ac_filter(
        0x1234,
        0x56,
        &[[0x01, 0x02, 0x03, 0x04], [0x05, 0x06, 0x07, 0x08]],
    )
    .unwrap();

    assert_ac_filter(
        &spi,
        &[
            0x34, 0x12, 0x56, 0x01, 0x02, 0x03, 0x04, 0x05, 0x06, 0x07, 0x08,
        ],
    );
}

#[test]
fn test_activate_ac_filter_three_uid_payload() {
    let spi = TestSpi::default();
    let mut card = card_emulation_with_spi(spi.clone(), false);

    card.activate_ac_filter(
        0x1234,
        0x56,
        &[
            [0x01, 0x02, 0x03, 0x04],
            [0x05, 0x06, 0x07, 0x08],
            [0x09, 0x0A, 0x0B, 0x0C],
        ],
    )
    .unwrap();

    assert_ac_filter(
        &spi,
        &[
            0x34, 0x12, 0x56, 0x01, 0x02, 0x03, 0x04, 0x05, 0x06, 0x07, 0x08, 0x09, 0x0A, 0x0B,
            0x0C,
        ],
    );
}

#[test]
fn test_activate_ac_filter_invalid_uid_counts() {
    let mut card = card_emulation_with_spi(TestSpi::default(), false);
    let no_uids: [UID; 0] = [];

    assert_eq!(
        card.activate_ac_filter(0x1234, 0x56, &no_uids),
        Err(Error::InvalidCascadeLevelFilterCount(0))
    );

    let mut card = card_emulation_with_spi(TestSpi::default(), false);
    assert_eq!(
        card.activate_ac_filter(
            0x1234,
            0x56,
            &[
                [0x01, 0x02, 0x03, 0x04],
                [0x05, 0x06, 0x07, 0x08],
                [0x09, 0x0A, 0x0B, 0x0C],
                [0x0D, 0x0E, 0x0F, 0x10],
            ],
        ),
        Err(Error::InvalidCascadeLevelFilterCount(4))
    );
}

#[test]
fn anti_collision_filter_state() {
    let spi = TestSpi::default();
    let mut card = card_emulation_with_spi(spi.clone(), false);
    spi.0.borrow_mut().response_data = vec![0x84];
    assert_eq!(card.anti_collision_state(), Ok(AntiColState::ActiveAs));
    assert_ac_filter(&spi, &[0x00, 0x00]);
    spi.0.borrow_mut().response_data = vec![0x02];
    assert_eq!(card.deactivate_ac_filter(), Err(Error::InvalidAntiColState(0x02)));
    assert_ac_filter(&spi, &[]);
    spi.0.borrow_mut().response_data = vec![];
    assert_eq!(card.set_anti_collision_state(AntiColState::Halt), Ok(()));
    assert_ac_filter(&spi, &[0x80]);
}

#[test]
fn test_send_receive_keeps_raw_hardware_status() {
    let mut reader = reader_a(TestSpi::with_response_code(0x87));

    let response = reader.send_receive(&[0x26]).unwrap();

    assert_eq!(response.code, 0x87);
    assert_eq!(response.data.len(), 0);
}

#[test]
fn test_send_receive_length_boundaries() {
    // An empty payload and the largest encodable payload are accepted.
    let spi = TestSpi::default();
    let mut nfc = reader_a(spi.clone());
    assert!(nfc.send_receive(&[]).is_ok());
    assert!(spi.data().is_empty());
    assert!(nfc.send_receive(&[0xAA; MAX_COMMAND_DATA_LEN]).is_ok());
    assert_eq!(spi.data().len(), MAX_COMMAND_DATA_LEN);

    // One byte more cannot be announced by the command's one-byte length
    // field, and nothing is sent.
    for len in [MAX_COMMAND_DATA_LEN + 1, 528, MAX_BUFFER_SIZE] {
        let spi = TestSpi::default();
        let mut nfc = reader_a(spi.clone());
        assert_eq!(
            nfc.send_receive(&[0xAA; MAX_BUFFER_SIZE][..len]),
            Err(Error::InvalidDataLen(len))
        );
        assert_eq!(spi.command(), None);
    }
}

#[test]
fn test_card_emulation_send_length_boundaries() {
    let spi = TestSpi::default();
    let mut card = card_emulation_with_spi(spi.clone(), false);
    assert_eq!(card.send(&[]), Ok(()));
    assert!(spi.data().is_empty());
    assert_eq!(card.send(&[0xAA; MAX_COMMAND_DATA_LEN]), Ok(()));
    assert_eq!(spi.data().len(), MAX_COMMAND_DATA_LEN);

    for len in [MAX_COMMAND_DATA_LEN + 1, 528, MAX_BUFFER_SIZE] {
        let spi = TestSpi::default();
        let mut card = card_emulation_with_spi(spi.clone(), false);
        assert_eq!(
            card.send(&[0xAA; MAX_BUFFER_SIZE][..len]),
            Err(Error::InvalidDataLen(len))
        );
        assert_eq!(spi.command(), None);
    }
}

#[test]
fn test_protocol_select_paths_reject_hardware_status() {
    assert_hw_error(
        unselected_driver(TestSpi::with_response_code(0x82))
            .protocol_select_iso15693(Default::default()),
        St25r95Error::InvalidCommandLength,
    );
    assert_hw_error(
        unselected_driver(TestSpi::with_response_code(0x82))
            .protocol_select_iso14443a(Default::default()),
        St25r95Error::InvalidCommandLength,
    );
    assert_hw_error(
        unselected_driver(TestSpi::with_response_code(0x82))
            .protocol_select_iso14443b(Default::default()),
        St25r95Error::InvalidCommandLength,
    );
    assert_hw_error(
        unselected_driver(TestSpi::with_response_code(0x82))
            .protocol_select_felica(Default::default()),
        St25r95Error::InvalidCommandLength,
    );
    assert_hw_error(
        unselected_driver(TestSpi::with_response_code(0x82))
            .protocol_select_ce_iso14443a(Default::default()),
        St25r95Error::InvalidCommandLength,
    );
}

#[test]
fn test_acknowledgement_paths_reject_hardware_status() {
    assert_hw_error(
        reader_a(TestSpi::with_response_code(0x82)).field_off(),
        St25r95Error::InvalidCommandLength,
    );

    let mut reader = reader_a(TestSpi::with_response_code(0x82));
    assert_hw_error(
        reader.write_timer_windows(TimerWindow(0x52)),
        St25r95Error::InvalidCommandLength,
    );

    let mut card = card_emulation_with_spi(TestSpi::with_response_code(0x82), false);
    assert_hw_error(card.listen(), St25r95Error::InvalidCommandLength);
    assert!(!card.is_listening());

    let mut card = card_emulation_with_spi(TestSpi::with_response_code(0x82), false);
    assert_hw_error(card.send(&[0x01]), St25r95Error::InvalidCommandLength);

    let mut card = card_emulation_with_spi(TestSpi::with_response_code(0x82), false);
    assert_hw_error(
        card.activate_ac_filter(0x1234, 0x56, &[[0x01, 0x02, 0x03, 0x04]]),
        St25r95Error::InvalidCommandLength,
    );

    let mut card = card_emulation_with_spi(TestSpi::with_response_code(0x82), false);
    assert_hw_error(
        card.set_anti_collision_state(AntiColState::Idle),
        St25r95Error::InvalidCommandLength,
    );
}

#[test]
fn test_acknowledgement_paths_map_zero_length_hardware_errors() {
    for (status, expected) in [
        (0x8F, St25r95Error::NoField),
        (0x82, St25r95Error::InvalidCommandLength),
        (0x87, St25r95Error::FrameTimeoutOrNoTag),
        (0x84, St25r95Error::UnknownError(0x84)),
    ] {
        let mut card = card_emulation_with_spi(TestSpi::with_response_code(status), false);
        assert_hw_error(card.listen(), expected);
        assert!(!card.is_listening());
    }
}

#[test]
fn test_echo_requires_an_exact_echo_byte() {
    let mut nfc = unselected_driver(TestSpi::with_echo(&[ECHO_BYTE]));
    assert_eq!(nfc.echo(), Ok(()));

    let mut nfc = unselected_driver(TestSpi::with_echo(&[0x00]));
    assert_eq!(nfc.echo(), Err(Error::EchoFailed));

    let mut nfc = unselected_driver(TestSpi::with_echo(&[]));
    assert_eq!(nfc.echo(), Err(Error::EchoFailed));

    // Echoing while the chip is listening surfaces the framed status
    // rather than reporting a successful Echo.
    let mut nfc = unselected_driver(TestSpi::with_echo(&[ECHO_BYTE, 0x85, 0x00]));
    assert_hw_error(nfc.echo(), St25r95Error::UserStop);

    // An implementation claiming more bytes than it wrote is refused.
    let mut nfc = unselected_driver(TestSpi::reporting(&[ECHO_BYTE], ECHO_RESPONSE_MAX_LEN + 1));
    assert_eq!(nfc.echo(), Err(Error::EchoFailed));
}

#[test]
fn test_cancel_listen_consumes_echo_byte_and_user_stop_frame() {
    // The documented cancellation answer: Echo byte, then the UserStop
    // frame. Both are consumed by the single Echo read.
    let mut card = card_emulation_with_spi(TestSpi::with_echo(&[ECHO_BYTE, 0x85, 0x00]), true);
    assert!(card.is_listening());
    assert_eq!(card.cancel_listen(), Ok(()));
    assert!(!card.is_listening());

    // An external reader command had already ended Listen mode, so only the
    // Echo byte comes back.
    let mut card = card_emulation_with_spi(TestSpi::with_echo(&[ECHO_BYTE]), true);
    assert_eq!(card.cancel_listen(), Ok(()));
    assert!(!card.is_listening());

    // Any other framed status is reported and leaves the listen state.
    let mut card = card_emulation_with_spi(TestSpi::with_echo(&[ECHO_BYTE, 0x82, 0x00]), true);
    assert_hw_error(card.cancel_listen(), St25r95Error::InvalidCommandLength);
    assert!(card.is_listening());

    // A truncated answer is not a cancellation.
    let mut card = card_emulation_with_spi(TestSpi::with_echo(&[ECHO_BYTE, 0x85]), true);
    assert_eq!(card.cancel_listen(), Err(Error::InvalidDataLen(1)));
    assert!(card.is_listening());
}

#[test]
fn test_calibrate_tag_detector_all_timeout_fails_without_dac_ref() {
    let mut reader = calibration_reader(&[timeout_wake()]);

    assert_eq!(
        reader.calibrate_tag_detector(),
        Err(Error::CalibTagDetectionFailed)
    );
    assert_eq!(reader.dac_ref(), None);
}

#[test]
fn test_calibrate_tag_detector_all_tag_detection_fails_without_dac_ref() {
    let mut reader = calibration_reader(&[tag_detection_wake(), tag_detection_wake()]);

    assert_eq!(
        reader.calibrate_tag_detector(),
        Err(Error::CalibTimeoutFailed)
    );
    assert_eq!(reader.dac_ref(), None);
}

#[test]
fn test_calibrate_tag_detector_boundary_timeout_fails_without_updating_dac_ref() {
    let mut reader = calibration_reader(&[
        tag_detection_wake(),
        timeout_wake(),
        timeout_wake(),
        timeout_wake(),
        timeout_wake(),
        timeout_wake(),
        timeout_wake(),
        timeout_wake(),
    ]);
    reader.set_dac_ref(Some(0x55));

    assert_eq!(
        reader.calibrate_tag_detector(),
        Err(Error::CalibDacOutOfRange {
            dac_high: 0x00,
            delta: -0x04,
        })
    );
    assert_eq!(reader.dac_ref(), Some(0x55));
}

#[test]
fn test_calibrate_tag_detector_boundary_zero_succeeds() {
    let mut reader = calibration_reader(&[
        tag_detection_wake(),
        timeout_wake(),
        timeout_wake(),
        timeout_wake(),
        timeout_wake(),
        timeout_wake(),
        timeout_wake(),
        tag_detection_wake(),
    ]);

    assert_eq!(reader.calibrate_tag_detector(), Ok(0x00));
    assert_eq!(reader.dac_ref(), Some(0x00));
}

#[test]
fn calibration_searches_by_halving_steps() {
    // An answer without wake-up sources ends the search with its error.
    let spi = TestSpi::with_wake_sources(&[tag_detection_wake(), timeout_wake(), tag_detection_wake()]);
    let mut reader = unselected_driver(spi.clone());
    assert_eq!(
        reader.calibrate_tag_detector(),
        Err(Error::InvalidResponseLength {
            expected: 1,
            actual: 0,
        })
    );
    assert_eq!(reader.dac_ref(), None);
    // The fourth Idle was sent with 0xFC - 0x80 + 0x40 as high threshold.
    assert_eq!(spi.command(), Some(Command::Idle));
    assert_eq!(spi.data()[11], 0xBC);

    // Alternating answers settle in the middle of the range.
    let mut reader = calibration_reader(&[
        tag_detection_wake(),
        timeout_wake(),
        tag_detection_wake(),
        timeout_wake(),
        tag_detection_wake(),
        timeout_wake(),
        tag_detection_wake(),
        timeout_wake(),
    ]);
    // 0xFC -0x80 +0x40 -0x20 +0x10 -0x08 +0x04, then a last timeout -0x04.
    assert_eq!(reader.calibrate_tag_detector(), Ok(0xA4));
    assert_eq!(reader.dac_ref(), Some(0xA4));
}

#[test]
fn idle_with_tag_detection_needs_a_calibration() {
    let params = IdleParams {
        wus: WakeUpSource {
            tag_detection: true,
            ..Default::default()
        },
        ..Default::default()
    };
    let spi = TestSpi::with_wake_sources(&[tag_detection_wake()]);
    let mut nfc = unselected_driver(spi.clone());
    assert_eq!(nfc.idle(params, 1_000), Err(Error::CalibrationNeeded));
    assert_eq!(spi.command(), None);

    nfc.set_dac_ref(Some(0x70));
    assert_eq!(nfc.idle(params, 1_000).map(|wus| wus.tag_detection), Ok(true));
    // With no guard band both thresholds are the reference.
    assert_eq!(spi.data()[10], 0x70);
    assert_eq!(spi.data()[11], 0x70);
}

#[test]
fn test_protocol_select_derives_the_host_deadline() {
    // A Type B FWT of about 154 ms, well above the default host wait.
    let fwt = iso14443b::reader::FWT::new(9, 0, 0).unwrap();
    assert!(fwt.carrier_cycles() > 1_356_000);
    let expected = 205;

    let spi = TestSpi::default();
    let gpio = TestGpio::sequenced(&[0, 200]);
    let nfc = unselected(&spi, &gpio);
    gpio.go_live();
    let mut reader = nfc
        .protocol_select_iso14443b(iso14443b::reader::Parameters::default().fwt(fwt))
        .unwrap();

    assert_eq!(reader.response_timeout(), expected);
    // The tag answers after 200 ms: a fixed 100 ms host wait would have
    // abandoned a frame the chip was still serving.
    assert!(reader.send_receive(&[0x05]).is_ok());
    assert_eq!(gpio.requested(), &[DEFAULT_RESPONSE_TIMEOUT_MS, expected]);
}

#[test]
fn test_multi_second_frame_wait_is_honoured() {
    // FeliCa RWT at the largest exponent FeliCa uses: about 4.9 s.
    let rwt = felica::reader::RWT::new(MAX_PP, 0).unwrap();
    let expected = 5_000;

    let spi = TestSpi::default();
    let gpio = TestGpio::sequenced(&[0, 4_900]);
    let nfc = unselected(&spi, &gpio);
    gpio.go_live();
    let mut reader = nfc
        .protocol_select_felica(felica::reader::Parameters::default().rwt(rwt))
        .unwrap();

    assert_eq!(reader.response_timeout(), expected);
    assert!(reader.send_receive(&[0x00]).is_ok());
}

#[test]
fn deadline_without_frame_timeout_is_the_default() {
    let spi = TestSpi::default();
    let nfc = unselected(&spi, &TestGpio::default());
    assert_eq!(nfc.response_timeout(), DEFAULT_RESPONSE_TIMEOUT_MS);
    // A short FDT keeps the default; the card emulation sets no timeout.
    let reader = nfc.protocol_select_iso14443a(Default::default()).unwrap();
    assert_eq!(reader.response_timeout(), DEFAULT_RESPONSE_TIMEOUT_MS);
    let nfc = reader.field_off().unwrap();
    assert_eq!(nfc.response_timeout(), DEFAULT_RESPONSE_TIMEOUT_MS);
    let mut card = nfc.protocol_select_ce_iso14443a(Default::default()).unwrap();
    assert_eq!(card.response_timeout(), DEFAULT_RESPONSE_TIMEOUT_MS);
    card.set_response_timeout(7);
    assert_eq!(card.response_timeout(), 7);
}

fn reader_with_gpio(gpio: &TestGpio) -> Driver<FieldOn, Reader, Iso14443A> {
    let spi = TestSpi::default();
    let nfc = unselected(&spi, gpio)
        .protocol_select_iso14443a(Default::default())
        .unwrap();
    spi.go_live();
    gpio.go_live();
    nfc
}

#[test]
fn test_default_deadline_boundaries() {
    // Just below, at, and above the default deadline.
    for (delay, answered) in [(99, true), (100, true), (101, false)] {
        let gpio = TestGpio::sequenced(&[delay]);
        let mut reader = reader_with_gpio(&gpio);

        assert_eq!(reader.send_receive(&[0x26]).is_ok(), answered);
        assert_eq!(gpio.requested(), &[DEFAULT_RESPONSE_TIMEOUT_MS]);
    }
}

#[test]
fn test_host_timeout_keeps_the_operation_and_blocks_new_commands() {
    // The chip answers after 3 s while the host waits the default 100 ms.
    let gpio = TestGpio::sequenced(&[3_000, 0, 0]);
    let mut reader = reader_with_gpio(&gpio);

    assert_eq!(reader.send_receive(&[0x26]), Err(Error::ResponseInProgress));
    assert!(reader.is_response_pending());

    // A second command would race the answer to the first, so it never
    // reaches the chip and cannot consume the late response.
    assert_eq!(reader.send_receive(&[0x26]), Err(Error::ResponseInProgress));
    assert_eq!(gpio.requested().len(), 1);

    // Waiting longer completes the operation that was already in flight.
    let response = reader.poll_pending_response(5_000).unwrap();
    assert_eq!(response.code, 0);
    assert!(!reader.is_response_pending());
    assert!(reader.send_receive(&[0x26]).is_ok());
}

#[test]
fn test_discard_pending_response_unblocks_the_driver() {
    let gpio = TestGpio::sequenced(&[3_000, 0]);
    let mut reader = reader_with_gpio(&gpio);

    assert_eq!(reader.send_receive(&[0x26]), Err(Error::ResponseInProgress));
    assert!(reader.is_response_pending());

    assert_eq!(reader.discard_pending_response(), Ok(()));
    assert!(!reader.is_response_pending());
    assert!(reader.send_receive(&[0x26]).is_ok());
}

#[test]
fn test_idle_uses_the_caller_supplied_deadline() {
    // A deadline shorter than the configured sleep leaves the chip asleep.
    let spi = TestSpi::with_wake_sources(&[timeout_wake()]);
    let gpio = TestGpio::sequenced(&[3_000]);
    let mut nfc = unselected(&spi, &gpio);
    spi.go_live();
    gpio.go_live();

    assert_eq!(
        nfc.idle(IdleParams::default(), DEFAULT_RESPONSE_TIMEOUT_MS),
        Err(Error::ResponseInProgress)
    );
    assert!(nfc.is_response_pending());

    // The wake-up answer is still collectable once it arrives.
    assert_eq!(nfc.ack_idle().map(|wus| wus.timeout), Ok(true));
    assert!(!nfc.is_response_pending());
    assert_eq!(gpio.requested(), &[DEFAULT_RESPONSE_TIMEOUT_MS]);

    // A deadline that covers the sleep returns the wake-up source directly.
    let spi = TestSpi::with_wake_sources(&[timeout_wake()]);
    let gpio = TestGpio::sequenced(&[3_000]);
    let mut nfc = unselected(&spi, &gpio);
    spi.go_live();
    gpio.go_live();

    assert_eq!(
        nfc.idle(IdleParams::default(), 5_000).map(|wus| wus.timeout),
        Ok(true)
    );
    assert!(!nfc.is_response_pending());
}

#[test]
fn idle_async_leaves_the_answer_pending() {
    let spi = TestSpi::with_wake_sources(&[timeout_wake()]);
    let mut nfc = unselected_driver(spi.clone());
    assert_eq!(nfc.idle_async(IdleParams::default()), Ok(()));
    assert!(nfc.is_response_pending());
    assert_eq!(nfc.echo(), Err(Error::ResponseInProgress));
    assert_eq!(nfc.ack_idle().map(|wus| wus.timeout), Ok(true));
    assert!(!nfc.is_response_pending());
}

#[test]
fn test_receive_timeout_leaves_the_card_able_to_cancel_listen() {
    // No reader command arrives within the deadline.
    let spi = TestSpi::default();
    let gpio = TestGpio::sequenced(&[3_000, 0]);
    let mut card = unselected(&spi, &gpio)
        .protocol_select_ce_iso14443a(Default::default())
        .unwrap();
    card.listen().unwrap();
    spi.go_live();
    gpio.go_live();

    assert_eq!(
        card.receive(DEFAULT_RESPONSE_TIMEOUT_MS),
        Err(Error::ResponseInProgress)
    );

    // Nothing was sent, so the card can still leave Listen mode.
    assert!(!card.is_response_pending());
    assert_eq!(card.cancel_listen(), Ok(()));
    assert!(!card.is_listening());
}

#[test]
fn poll_field_reads_the_field_detector() {
    let spi = TestSpi::default();
    let mut nfc = unselected_driver(spi.clone());
    assert_eq!(nfc.poll_field(None), Ok(false));
    assert!(spi.data().is_empty());
    spi.0.borrow_mut().response_data = vec![0x01];
    assert_eq!(
        nfc.poll_field(Some(st25r95::WaitForField {
            apparance: true,
            presc: 0x21,
            timer: 0x58,
        })),
        Ok(true)
    );
    assert_eq!(spi.data(), &[0x01, 0x21, 0x58]);
    spi.0.borrow_mut().response_data = vec![0x01, 0x00];
    assert_eq!(
        nfc.poll_field(None),
        Err(Error::InvalidResponseLength {
            expected: 1,
            actual: 2
        })
    );
}

#[test]
fn protocol_select_sends_the_parameter_bytes() {
    let spi = TestSpi::default();
    let nfc = unselected(&spi, &TestGpio::default());
    let _reader = nfc
        .protocol_select_iso14443a(
            st25r95::iso14443a::reader::Parameters::default()
                .fdt(st25r95::iso14443a::reader::FDT::new(1, 2, 3).unwrap()),
        )
        .unwrap();
    assert_eq!(spi.command(), Some(Command::ProtocolSelect));
    assert_eq!(spi.data(), &[0x02, 0x00, 0x01, 0x02, 0x03]);
}

#[test]
fn echo_followed_by_a_successful_frame_is_not_a_bare_echo() {
    let mut nfc = unselected_driver(TestSpi::with_echo(&[ECHO_BYTE, 0x00, 0x00]));
    assert_eq!(nfc.echo(), Err(Error::EchoFailed));
    assert!(!nfc.is_response_pending());
}

#[test]
fn calibration_without_answer_reports_response_in_progress() {
    let spi = TestSpi::with_wake_sources(&[tag_detection_wake()]);
    let gpio = TestGpio::sequenced(&[u32::MAX]);
    let mut nfc = unselected(&spi, &gpio);
    spi.go_live();
    gpio.go_live();
    assert_eq!(nfc.calibrate_tag_detector(), Err(Error::ResponseInProgress));
    assert!(nfc.is_response_pending());
    assert_eq!(nfc.dac_ref(), None);
    assert_eq!(spi.command(), Some(Command::Idle));
    assert_eq!(gpio.requested(), vec![DEFAULT_RESPONSE_TIMEOUT_MS]);
}

#[test]
fn calibration_result_is_a_multiple_of_four() {
    let mut reader = calibration_reader(&[
        tag_detection_wake(),
        timeout_wake(),
        tag_detection_wake(),
        timeout_wake(),
        tag_detection_wake(),
        timeout_wake(),
        tag_detection_wake(),
        timeout_wake(),
    ]);
    let high = reader.calibrate_tag_detector().unwrap();
    assert_eq!(high % 4, 0);
    assert!(high <= 0xFC);
    assert_eq!(reader.dac_ref(), Some(high));
}

#[test]
fn identification_accepts_only_nfc_names() {
    let mut nfc = St25r95::new(MockSpi::default(), MockGpio).unwrap();
    let (name, _) = nfc.idn().unwrap();
    assert_eq!(check_identification(&name), Ok(()));

    let spi = TestSpi::default();
    let mut nfc = unselected_driver(spi.clone());
    spi.0.borrow_mut().response_data = b"XYZ FS2JAST4\0\x00\x01".to_vec();
    let (name, _) = nfc.idn().unwrap();
    assert_eq!(&name.as_bytes()[..3], b"XYZ");
    assert_eq!(check_identification(&name), Err(Error::IdentificationError));
}

#[test]
fn setting_the_deadline_sends_nothing() {
    let spi = TestSpi::default();
    let mut nfc = unselected_driver(spi.clone());
    nfc.set_response_timeout(250);
    assert_eq!(nfc.response_timeout(), 250);
    assert_eq!(spi.command(), None);
    assert!(!nfc.is_response_pending());
}

#[test]
fn pending_flag_follows_sends_answers_and_flushes() {
    /// A link that takes every command but cannot be flushed.
    struct StuckLink {
        idn: bool,
    }
    impl St25r95Spi for StuckLink {
        fn poll(&mut self, _flags: PollFlags) -> Result<()> {
            Ok(())
        }
        fn reset(&mut self) -> Result<()> {
            Ok(())
        }
        fn send_command(&mut self, cmd: Command, _data: &[u8], _sod: bool) -> Result<()> {
            self.idn = cmd == Command::Idn;
            Ok(())
        }
        fn read_data(&mut self) -> Result<ReadResponse> {
            Ok(if self.idn { frame(0, IDN) } else { frame(0, &[]) })
        }
        fn read_echo(&mut self, buf: &mut [u8; ECHO_RESPONSE_MAX_LEN]) -> Result<usize> {
            buf[0] = ECHO_BYTE;
            Ok(1)
        }
        fn flush(&mut self) -> Result<()> {
            Err(Error::Spi)
        }
    }

    let gpio = TestGpio::sequenced(&[u32::MAX, 0]);
    let mut nfc = St25r95::new(StuckLink { idn: false }, gpio.clone()).unwrap();
    assert!(!nfc.is_response_pending());
    gpio.go_live();
    // The answer does not come in time: the command still awaits it.
    assert_eq!(nfc.echo(), Err(Error::ResponseInProgress));
    assert!(nfc.is_response_pending());
    // A failed flush leaves it awaited.
    assert_eq!(nfc.discard_pending_response(), Err(Error::Spi));
    assert!(nfc.is_response_pending());
    // Reading the answer settles it.
    assert!(nfc.poll_pending_response(DEFAULT_RESPONSE_TIMEOUT_MS).is_ok());
    assert!(!nfc.is_response_pending());
}


#[test]
fn idn_refuses_names_that_are_not_utf8() {
    for name in [
        &b"NFC \xED\xA0\x80S2JAS\0"[..],
        &b"NFC \xC0\x80FS2JAST"[..],
        &b"NFC FS2JAST4\xF4"[..],
    ] {
        let spi = TestSpi::default();
        let mut nfc = unselected_driver(spi.clone());
        let mut data = name.to_vec();
        data.extend_from_slice(&[0x00, 0x01]);
        spi.0.borrow_mut().response_data = data;
        assert!(matches!(nfc.idn(), Err(Error::UTF8(_))));
    }
    let spi = TestSpi::default();
    let mut nfc = unselected_driver(spi.clone());
    spi.0.borrow_mut().response_data = b"NFC \xE2\x82\xACS2JAS\0\x00\x01".to_vec();
    assert!(nfc.idn().is_ok());
}

#[test]
fn spi_errors_pass_through_calibration_and_echo() {
    /// A link whose reads fail once it is live.
    struct FailingReads {
        idn: bool,
        live: Rc<RefCell<bool>>,
    }
    impl St25r95Spi for FailingReads {
        fn poll(&mut self, _flags: PollFlags) -> Result<()> {
            if *self.live.borrow() {
                Err(Error::PollTimeout)
            } else {
                Ok(())
            }
        }
        fn reset(&mut self) -> Result<()> {
            Ok(())
        }
        fn send_command(&mut self, cmd: Command, _data: &[u8], _sod: bool) -> Result<()> {
            self.idn = cmd == Command::Idn;
            Ok(())
        }
        fn read_data(&mut self) -> Result<ReadResponse> {
            if *self.live.borrow() {
                return Err(Error::Spi);
            }
            Ok(if self.idn { frame(0, IDN) } else { frame(0, &[]) })
        }
        fn read_echo(&mut self, _buf: &mut [u8; ECHO_RESPONSE_MAX_LEN]) -> Result<usize> {
            Err(Error::Spi)
        }
        fn flush(&mut self) -> Result<()> {
            Ok(())
        }
    }

    let live = Rc::new(RefCell::new(false));
    let mut nfc = St25r95::new(FailingReads { idn: false, live: live.clone() }, MockGpio).unwrap();
    *live.borrow_mut() = true;
    assert_eq!(nfc.calibrate_tag_detector(), Err(Error::Spi));
    assert!(nfc.is_response_pending());
    assert_eq!(nfc.discard_pending_response(), Ok(()));
    assert_eq!(nfc.echo(), Err(Error::PollTimeout));
    assert!(!nfc.is_response_pending());
}
