use st25r95::acc_a::{AccA, DemodulatorSensitivity, LoadModulationIndex};
use st25r95::analog;
use st25r95::arc_b::ArcB;
use st25r95::ce_iso14443a;
use st25r95::felica::reader as felica_reader;
use st25r95::iso14443a::card_emulation::{self, AntiColState};
use st25r95::iso14443a::reader as iso14443a_reader;
use st25r95::iso14443b::reader as iso14443b_reader;
use st25r95::iso15693::reader as iso15693_reader;
use st25r95::protocol::ProtocolParams;
use st25r95::selection::Protocol as SelectionProtocol;
use st25r95::selection::{
    CardEmulationIso14443AProtocolBuilder, Iso14443ADataRate, Iso14443AProtocolBuilder,
    Iso15693ProtocolBuilder, Iso15693Speed, Modulation, ProtocolSelection, Subcarrier,
};
use st25r95::{
    CtrlResConf, DacData, EchoResponse, Error, FrameData, IdleParams, LFOFreq, ModulationIndex,
    Protocol, ReadResponse, ReceiverGain, St25r95Error, WakeUpSource, ECHO_BYTE, MAX_BUFFER_SIZE,
};

fn assert_analog_param(param: analog::AnalogParam, data: &[u8]) {
    let mut buf = [0u8; 5];
    let len = param.as_slice(&mut buf);

    assert_eq!(data.len(), len, "data length doesn't match");
    assert_eq!(
        data[..len],
        buf[..len],
        "analog register data doesn't match the example"
    );
}

#[test]
fn test_analog_param() {
    assert_analog_param(
        analog::AnalogParam::try_new_acc_a(
            Protocol::CardEmulationIso14443A,
            analog::AccA {
                load_modulation_index: analog::LoadModulationIndex::try_from(5).unwrap(),
                demodulator_sensitivity: analog::DemodulatorSensitivity::Percent100,
            },
        )
        .unwrap(),
        &[0x04, 0x68, 0x01, 0x04, 0x25],
    );
    assert_analog_param(
        analog::AnalogParam::try_new_arc_b(
            Protocol::FeliCa,
            None,
            analog::ArcB {
                modulation_index: analog::ModulationIndex::Percent17,
                receiver_gain: analog::ReceiverGain::Db27,
            },
        )
        .unwrap(),
        &[0x04, 0x68, 0x01, 0x01, 0x23],
    );
    assert_analog_param(
        analog::AnalogParam::try_new_timer_w(Protocol::Iso14443A, analog::TimerW::new(0x58))
            .unwrap(),
        &[0x04, 0x3A, 0x00, 0x58, 0x04],
    );
}

#[test]
fn analog_param_checks_the_protocol() {
    let acc_a = analog::AccA {
        load_modulation_index: analog::LoadModulationIndex::try_from(5).unwrap(),
        demodulator_sensitivity: analog::DemodulatorSensitivity::Percent10,
    };
    assert_eq!(
        analog::AnalogParam::try_new_acc_a(Protocol::CardEmulationIso14443A, acc_a).err(),
        Some(analog::AnalogError::UnsupportedAnalogParameterValueForProtocol)
    );
    assert_eq!(
        analog::AnalogParam::try_new_acc_a(Protocol::Iso14443A, acc_a).err(),
        Some(analog::AnalogError::UnsupportedProtocolSelected)
    );
    let arc_b = analog::ArcB {
        modulation_index: analog::ModulationIndex::Percent33,
        receiver_gain: analog::ReceiverGain::Db8,
    };
    assert_eq!(
        analog::AnalogParam::try_new_arc_b(Protocol::Iso15693, None, arc_b).err(),
        Some(analog::AnalogError::NoModulationParameter)
    );
    assert!(analog::AnalogParam::try_new_arc_b(
        Protocol::Iso15693,
        Some(Modulation::Modulation10Percent),
        arc_b
    )
    .is_ok());
    assert_eq!(
        analog::AnalogParam::try_new_arc_b(
            Protocol::Iso15693,
            Some(Modulation::Modulation100Percent),
            arc_b
        )
        .err(),
        Some(analog::AnalogError::UnsupportedAnalogParameterValueForProtocol)
    );
    assert_eq!(
        analog::AnalogParam::try_new_arc_b(Protocol::CardEmulationIso14443A, None, arc_b).err(),
        Some(analog::AnalogError::UnsupportedProtocolSelected)
    );
    for (value, ok) in [(0x4F, false), (0x50, true), (0x60, true), (0x61, false)] {
        assert_eq!(
            analog::AnalogParam::try_new_timer_w(Protocol::Iso14443A, analog::TimerW::new(value))
                .is_ok(),
            ok
        );
    }
    assert!(analog::LoadModulationIndex::try_from(0x10).is_err());
}

#[test]
fn test_wakeup_source() {
    // Wake-up by Timeout
    assert_eq!(
        u8::from(WakeUpSource {
            lfo_freq: LFOFreq::KHz32,
            ss_low_pulse: false,
            irq_in_low_pulse: false,
            field_detection: false,
            tag_detection: false,
            timeout: true,
        }),
        0x01
    );
    // Wake-up by tag detect
    assert_eq!(
        u8::from(WakeUpSource {
            lfo_freq: LFOFreq::KHz32,
            ss_low_pulse: false,
            irq_in_low_pulse: false,
            field_detection: false,
            tag_detection: true,
            timeout: false,
        }),
        0x02
    );
    // Wake-up by low pulse on IRQ_IN pin
    assert_eq!(
        u8::from(WakeUpSource {
            lfo_freq: LFOFreq::KHz32,
            ss_low_pulse: false,
            irq_in_low_pulse: true,
            field_detection: false,
            tag_detection: false,
            timeout: false,
        }),
        0x08
    );
}

#[test]
fn wake_up_byte_round_trip() {
    let wus = WakeUpSource {
        lfo_freq: LFOFreq::KHz4,
        ss_low_pulse: true,
        irq_in_low_pulse: false,
        field_detection: true,
        tag_detection: false,
        timeout: true,
    };
    let byte = u8::from(wus);
    assert_eq!(byte, 0xD5);
    assert_eq!(WakeUpSource::try_from(byte), Ok(wus));
    // Bit 5 is not a wake-up source and is dropped.
    assert_eq!(u8::from(WakeUpSource::try_from(0xF5).unwrap()), 0xD5);
}

#[test]
fn test_ctrl_res_conf() {
    assert_eq!(
        CtrlResConf {
            field_detector_enabled: false,
            iref_enabled: false,
            dac_comp_high: false,
            lfo_enabled: false,
            hfo_enabled: false,
            vdda_enabled: false,
            hibernate_state_enabled: true,
            sleep_state_enabled: false,
        },
        CtrlResConf::default() // Hibernate
    );
    assert_eq!(
        u16::from(CtrlResConf {
            field_detector_enabled: false,
            iref_enabled: false,
            dac_comp_high: false,
            lfo_enabled: false,
            hfo_enabled: false,
            vdda_enabled: false,
            hibernate_state_enabled: true,
            sleep_state_enabled: false,
        }),
        0x0004 // Hibernate
    );
    assert_eq!(
        u16::from(CtrlResConf {
            field_detector_enabled: false,
            iref_enabled: false,
            dac_comp_high: false,
            lfo_enabled: false,
            hfo_enabled: true,
            vdda_enabled: true,
            hibernate_state_enabled: false,
            sleep_state_enabled: false,
        }),
        0x0018 // default Leave control
    );
}

fn sleep_ctrl() -> CtrlResConf {
    CtrlResConf {
        field_detector_enabled: false,
        iref_enabled: false,
        dac_comp_high: false,
        lfo_enabled: false,
        hfo_enabled: false,
        vdda_enabled: false,
        hibernate_state_enabled: false,
        sleep_state_enabled: true,
    }
}

fn wake_ctrl() -> CtrlResConf {
    CtrlResConf {
        field_detector_enabled: false,
        iref_enabled: false,
        dac_comp_high: false,
        lfo_enabled: true,
        hfo_enabled: true,
        vdda_enabled: true,
        hibernate_state_enabled: false,
        sleep_state_enabled: false,
    }
}

#[test]
fn test_idle_self() {
    // Example of switch from Active mode to Hibernate state
    assert_eq!(
        IdleParams {
            wus: WakeUpSource {
                lfo_freq: LFOFreq::KHz32,
                ss_low_pulse: false,
                irq_in_low_pulse: true,
                field_detection: false,
                tag_detection: false,
                timeout: false,
            },
            wu_period: 0,
            osc_start: 0,
            dac_start: 0,
            dac_data: DacData { low: 0, high: 0 },
            swing_count: 0,
            max_sleep: 0,
            ..Default::default()
        }
        .data(),
        [0x08, 0x04, 0x00, 0x04, 0x00, 0x18, 0x00, 0x00, 0x00, 0x00, 0x00, 0x00, 0x00, 0x00]
    );
    // Example of switch from Active to WFE mode (wake-up by low pulse on IRQ_IN pin)
    assert_eq!(
        IdleParams {
            wus: WakeUpSource {
                lfo_freq: LFOFreq::KHz32,
                ss_low_pulse: false,
                irq_in_low_pulse: true,
                field_detection: false,
                tag_detection: false,
                timeout: false,
            },
            enter_ctrl: sleep_ctrl(),
            wu_ctrl: wake_ctrl(),
            wu_period: 0,
            dac_start: 0,
            dac_data: DacData { low: 0, high: 0 },
            swing_count: 0,
            max_sleep: 0,
            ..Default::default()
        }
        .data(),
        [0x08, 0x01, 0x00, 0x38, 0x00, 0x18, 0x00, 0x00, 0x60, 0x00, 0x00, 0x00, 0x00, 0x00]
    );
    // Example of switch from Active to WFE mode (wake-up by low pulse on SPI_SS pin)
    assert_eq!(
        IdleParams {
            wus: WakeUpSource {
                lfo_freq: LFOFreq::KHz32,
                ss_low_pulse: true,
                irq_in_low_pulse: false,
                field_detection: false,
                tag_detection: false,
                timeout: false,
            },
            enter_ctrl: sleep_ctrl(),
            wu_ctrl: wake_ctrl(),
            wu_period: 0,
            dac_start: 0,
            dac_data: DacData { low: 0, high: 0 },
            swing_count: 0,
            max_sleep: 0,
            ..Default::default()
        }
        .data(),
        [0x10, 0x01, 0x00, 0x38, 0x00, 0x18, 0x00, 0x00, 0x60, 0x00, 0x00, 0x00, 0x00, 0x00]
    );
}

#[test]
fn idle_duration_before_timeout() {
    // tREF (8 ms at 32 kHz) times (wu_period + 2) times (max_sleep + 1).
    assert_eq!(IdleParams::default().duration_before_timeout_us(), 8_000 * 34 * 9);
    let params = IdleParams {
        wus: WakeUpSource {
            lfo_freq: LFOFreq::KHz4,
            ..Default::default()
        },
        wu_period: 255,
        max_sleep: 255,
        ..Default::default()
    };
    assert_eq!(params.duration_before_timeout_us(), 64_000 * 257 * 256);
    assert_eq!(LFOFreq::KHz32.t_ref_ms(), 8);
    assert_eq!(LFOFreq::KHz4.t_ref_ms(), 64);
}

fn assert_parameters(protocol: SelectionProtocol, selection: ProtocolSelection, expected: &[u8]) {
    assert_eq!(selection.protocol, protocol);
    assert_eq!(selection.param_len, expected.len());
    assert_eq!(selection.parameters[..selection.param_len], *expected);
}

#[test]
fn test_iso15693_builder() {
    // H 100 S - crc
    assert_parameters(SelectionProtocol::Iso15693, Iso15693ProtocolBuilder::default().build(), &[0x00]);
    // H 100 S + crc
    assert_parameters(
        SelectionProtocol::Iso15693,
        Iso15693ProtocolBuilder::default().with_crc().build(),
        &[0x01],
    );
    // H 100 D + crc
    assert_parameters(
        SelectionProtocol::Iso15693,
        Iso15693ProtocolBuilder::default()
            .subcarrier(Subcarrier::Double)
            .with_crc()
            .build(),
        &[0x03],
    );
    // H 10 S + crc
    assert_parameters(
        SelectionProtocol::Iso15693,
        Iso15693ProtocolBuilder::default()
            .modulation(Modulation::Modulation10Percent)
            .with_crc()
            .build(),
        &[0x05],
    );
    // H 10 D + crc
    assert_parameters(
        SelectionProtocol::Iso15693,
        Iso15693ProtocolBuilder::default()
            .modulation(Modulation::Modulation10Percent)
            .subcarrier(Subcarrier::Double)
            .with_crc()
            .build(),
        &[0x07],
    );
    // H 10 D - crc
    assert_parameters(
        SelectionProtocol::Iso15693,
        Iso15693ProtocolBuilder::default()
            .modulation(Modulation::Modulation10Percent)
            .subcarrier(Subcarrier::Double)
            .build(),
        &[0x06],
    );
    // L 100 S + crc
    assert_parameters(
        SelectionProtocol::Iso15693,
        Iso15693ProtocolBuilder::default()
            .speed(Iso15693Speed::Speed6KbpsL)
            .with_crc()
            .build(),
        &[0x21],
    );
    // L 10 S + crc
    assert_parameters(
        SelectionProtocol::Iso15693,
        Iso15693ProtocolBuilder::default()
            .speed(Iso15693Speed::Speed6KbpsL)
            .modulation(Modulation::Modulation10Percent)
            .with_crc()
            .build(),
        &[0x25],
    );
    // L 10 D + crc
    assert_parameters(
        SelectionProtocol::Iso15693,
        Iso15693ProtocolBuilder::default()
            .speed(Iso15693Speed::Speed6KbpsL)
            .modulation(Modulation::Modulation10Percent)
            .subcarrier(Subcarrier::Double)
            .with_crc()
            .build(),
        &[0x27],
    );
    // L 10 D - crc
    assert_parameters(
        SelectionProtocol::Iso15693,
        Iso15693ProtocolBuilder::default()
            .speed(Iso15693Speed::Speed6KbpsL)
            .modulation(Modulation::Modulation10Percent)
            .subcarrier(Subcarrier::Double)
            .build(),
        &[0x26],
    );
}

#[test]
fn iso15693_builder_fast_and_wait_for_sof() {
    assert_parameters(
        SelectionProtocol::Iso15693,
        Iso15693ProtocolBuilder::default()
            .speed(Iso15693Speed::Speed52Kbps)
            .wait_for_sof()
            .build(),
        &[0x18],
    );
    assert_eq!(SelectionProtocol::CardEmulationIso14443A.code(), 0x12);
}

#[test]
fn test_card_emulation_iso14443a_builder() {
    assert_parameters(
        SelectionProtocol::CardEmulationIso14443A,
        CardEmulationIso14443AProtocolBuilder::default().build(),
        &[0x00],
    );
    assert_parameters(
        SelectionProtocol::CardEmulationIso14443A,
        CardEmulationIso14443AProtocolBuilder::default()
            .wait_for_field()
            .build(),
        &[0x08],
    );
    assert_parameters(
        SelectionProtocol::CardEmulationIso14443A,
        CardEmulationIso14443AProtocolBuilder::default()
            .clock_from_field()
            .build(),
        &[0x02],
    );
    assert_parameters(
        SelectionProtocol::CardEmulationIso14443A,
        CardEmulationIso14443AProtocolBuilder::default()
            .wait_for_field()
            .clock_from_field()
            .build(),
        &[0x0A],
    );
}

#[test]
fn test_iso14443a_builder() {
    assert_parameters(SelectionProtocol::Iso14443A, Iso14443AProtocolBuilder::default().build(), &[0x00]);
    assert_parameters(
        SelectionProtocol::Iso14443A,
        Iso14443AProtocolBuilder::default()
            .tx_data_rate(Iso14443ADataRate::Kbps424)
            .rx_data_rate(Iso14443ADataRate::Kbps424)
            .fdt(1, 2, 3)
            .build(),
        &[0xA0, 0x01, 0x02, 0x03],
    );
}

#[test]
fn test_card_emulation_iso14443a_parameters() {
    assert_eq!(
        ce_iso14443a::Parameters::default().data(),
        ([0x00, 0x00, 0x00, 0x00, 0x00, 0x00, 0x00, 0x00], 1)
    );
    assert_eq!(
        ce_iso14443a::Parameters::default().wait_for_field().data(),
        ([0x08, 0x00, 0x00, 0x00, 0x00, 0x00, 0x00, 0x00], 1)
    );
    assert_eq!(
        ce_iso14443a::Parameters::default().clock_from_field().data(),
        ([0x02, 0x00, 0x00, 0x00, 0x00, 0x00, 0x00, 0x00], 1)
    );
    assert_eq!(
        ce_iso14443a::Parameters::default()
            .wait_for_field()
            .clock_from_field()
            .data(),
        ([0x0A, 0x00, 0x00, 0x00, 0x00, 0x00, 0x00, 0x00], 1)
    );
}

#[test]
fn felica_test_parameters() {
    assert_eq!(
        felica_reader::Parameters::default().data(),
        ([0x00, 0x10, 0x00, 0x00, 0x00, 0x00, 0x00, 0x00], 2)
    );
    assert_eq!(
        felica_reader::Parameters::default().with_crc().data(),
        ([0x01, 0x10, 0x00, 0x00, 0x00, 0x00, 0x00, 0x00], 2)
    );
    assert_eq!(
        felica_reader::Parameters::default()
            .tx_data_rate(felica_reader::DataRate::Kbps212)
            .rx_data_rate(felica_reader::DataRate::Kbps212)
            .with_crc()
            .rwt(felica_reader::RWT::new(1, 2).unwrap())
            .data(),
        ([0x51, 0x10, 0x01, 0x02, 0x00, 0x00, 0x00, 0x00], 4)
    );
}

#[test]
fn iso14443a_test_parameters() {
    {
        assert_eq!(
            iso14443a_reader::Parameters::default().data(),
            ([0x00, 0x00, 0x00, 0x00, 0x00, 0x00, 0x00, 0x00], 1)
        );
        assert_eq!(
            iso14443a_reader::Parameters::default()
                .tx_data_rate(iso14443a_reader::DataRate::Kbps424)
                .rx_data_rate(iso14443a_reader::DataRate::Kbps424)
                .fdt(iso14443a_reader::FDT::new(1, 2, 3).unwrap())
                .data(),
            ([0xA0, 0x01, 0x02, 0x03, 0x00, 0x00, 0x00, 0x00], 4),
        );
    }
    {
        assert_eq!(
            card_emulation::Parameters::default().data(),
            ([0x00, 0x00, 0x00, 0x00, 0x00, 0x00, 0x00, 0x00], 1)
        );
        assert_eq!(
            card_emulation::Parameters::default().wait_for_field().data(),
            ([0x08, 0x00, 0x00, 0x00, 0x00, 0x00, 0x00, 0x00], 1)
        );
        assert_eq!(
            card_emulation::Parameters::default().clock_from_field().data(),
            ([0x02, 0x00, 0x00, 0x00, 0x00, 0x00, 0x00, 0x00], 1)
        );
        assert_eq!(
            card_emulation::Parameters::default()
                .wait_for_field()
                .clock_from_field()
                .data(),
            ([0x0A, 0x00, 0x00, 0x00, 0x00, 0x00, 0x00, 0x00], 1)
        );
    }
}

#[test]
fn iso14443b_test_parameters() {
    assert_eq!(
        iso14443b_reader::Parameters::default().data(),
        ([0x00, 0x00, 0x00, 0x00, 0x00, 0x00, 0x00, 0x00], 1)
    );
    assert_eq!(
        iso14443b_reader::Parameters::default().with_crc().data(),
        ([0x01, 0x00, 0x00, 0x00, 0x00, 0x00, 0x00, 0x00], 1)
    );
    assert_eq!(
        iso14443b_reader::Parameters::default()
            .tx_data_rate(iso14443b_reader::DataRate::Kbps424)
            .rx_data_rate(iso14443b_reader::DataRate::Kbps424)
            .fwt(iso14443b_reader::FWT::new(1, 2, 3).unwrap())
            .data(),
        ([0xA0, 0x01, 0x02, 0x03, 0x03, 0xFF, 0x00, 0x1A], 8),
    );
}

#[test]
fn iso15693_test_parameters() {
    // H 100 S - crc
    assert_eq!(
        iso15693_reader::Parameters::default().data(),
        ([0x00, 0x00, 0x00, 0x00, 0x00, 0x00, 0x00, 0x00], 1),
    );
    // H 100 S + crc
    assert_eq!(
        iso15693_reader::Parameters::default().with_crc().data(),
        ([0x01, 0x00, 0x00, 0x00, 0x00, 0x00, 0x00, 0x00], 1),
    );
    // H 100 D + crc
    assert_eq!(
        iso15693_reader::Parameters::default()
            .subcarrier(iso15693_reader::Subcarrier::Double)
            .with_crc()
            .data(),
        ([0x03, 0x00, 0x00, 0x00, 0x00, 0x00, 0x00, 0x00], 1),
    );
    // H 10 S + crc
    assert_eq!(
        iso15693_reader::Parameters::default()
            .modulation(iso15693_reader::Modulation::Percent10)
            .with_crc()
            .data(),
        ([0x05, 0x00, 0x00, 0x00, 0x00, 0x00, 0x00, 0x00], 1),
    );
    // H 10 D + crc
    assert_eq!(
        iso15693_reader::Parameters::default()
            .modulation(iso15693_reader::Modulation::Percent10)
            .subcarrier(iso15693_reader::Subcarrier::Double)
            .with_crc()
            .data(),
        ([0x07, 0x00, 0x00, 0x00, 0x00, 0x00, 0x00, 0x00], 1),
    );
    // H 10 D - crc
    assert_eq!(
        iso15693_reader::Parameters::default()
            .modulation(iso15693_reader::Modulation::Percent10)
            .subcarrier(iso15693_reader::Subcarrier::Double)
            .data(),
        ([0x06, 0x00, 0x00, 0x00, 0x00, 0x00, 0x00, 0x00], 1),
    );
    // L 100 S + crc
    assert_eq!(
        iso15693_reader::Parameters::default().speed(iso15693_reader::Speed::Kbps6L).with_crc().data(),
        ([0x21, 0x00, 0x00, 0x00, 0x00, 0x00, 0x00, 0x00], 1),
    );
    // L 10 S + crc
    assert_eq!(
        iso15693_reader::Parameters::default()
            .speed(iso15693_reader::Speed::Kbps6L)
            .modulation(iso15693_reader::Modulation::Percent10)
            .with_crc()
            .data(),
        ([0x25, 0x00, 0x00, 0x00, 0x00, 0x00, 0x00, 0x00], 1),
    );
    // L 10 D + crc
    assert_eq!(
        iso15693_reader::Parameters::default()
            .speed(iso15693_reader::Speed::Kbps6L)
            .modulation(iso15693_reader::Modulation::Percent10)
            .subcarrier(iso15693_reader::Subcarrier::Double)
            .with_crc()
            .data(),
        ([0x27, 0x00, 0x00, 0x00, 0x00, 0x00, 0x00, 0x00], 1),
    );
    // L 10 D - crc
    assert_eq!(
        iso15693_reader::Parameters::default()
            .speed(iso15693_reader::Speed::Kbps6L)
            .modulation(iso15693_reader::Modulation::Percent10)
            .subcarrier(iso15693_reader::Subcarrier::Double)
            .data(),
        ([0x26, 0x00, 0x00, 0x00, 0x00, 0x00, 0x00, 0x00], 1),
    );
}

#[test]
fn frame_wait_carrier_cycles() {
    assert!(felica_reader::RWT::new(16, 0).is_none());
    assert_eq!(felica_reader::RWT::new(0, 0).unwrap().carrier_cycles(), 4096);
    assert_eq!(felica_reader::RWT::new(15, 0).unwrap().carrier_cycles(), 4096 << 15);
    assert_eq!(felica_reader::RWT::new(0, 255).unwrap().carrier_cycles(), 4096 * 256);
    assert!(iso14443a_reader::FDT::new(16, 0, 0).is_none());
    assert!(iso14443a_reader::FDT::new(0, 0, 128).is_none());
    assert!(iso14443b_reader::FWT::new(16, 0, 0).is_none());
    assert!(iso14443b_reader::FWT::new(0, 0, 128).is_none());
    assert_eq!(iso14443b_reader::FWT::new(15, 0, 0).unwrap().carrier_cycles(), 4096 << 15);
}

#[test]
fn test_acc_a_from_u8() {
    assert_eq!(
        AccA::from_u8(0x17),
        Ok(AccA {
            load_modulation_index: LoadModulationIndex::default(),
            demodulator_sensitivity: DemodulatorSensitivity::Percent10
        })
    );
    assert_eq!(AccA::from_u8(0x07), Err(Error::InvalidDemodulatorSensitivity(0x0)));
    assert_eq!(AccA::from_u8(0x37), Err(Error::InvalidDemodulatorSensitivity(0x3)));
    assert_eq!(
        AccA::from_u8(0x20),
        Err(Error::InvalidLoadModulationIndex {
            load_modulation_index: 0x0,
            min: 0x1,
            max: 0xf,
        })
    );
    assert_eq!(AccA::from_u8(0xE7), Err(Error::InvalidRFU(0x3)));
}

#[test]
fn test_arc_b_from_u8() {
    assert_eq!(
        ArcB::from_u8(0x23u8),
        Ok(ArcB {
            modulation_index: ModulationIndex::Percent17,
            receiver_gain: ReceiverGain::Db27,
        })
    );
    [0x0, 0x7, 0x8, 0x9, 0xA, 0xB, 0xC, 0xE, 0xF]
        .iter()
        .for_each(|i| {
            assert_eq!(
                ArcB::from_u8(*i << 4 | 0xf),
                Err(Error::InvalidModulationIndex(*i))
            );
        });
    [0x4, 0x5, 0x6, 0x8, 0x9, 0xA, 0xB, 0xC, 0xD, 0xE]
        .iter()
        .for_each(|i| {
            assert_eq!(
                ArcB::from_u8(*i | 0x10),
                Err(Error::InvalidReceiverGain(*i))
            );
        });
}

#[test]
fn anti_collision_state_bytes() {
    for (state, byte) in [
        (AntiColState::Idle, 0x00),
        (AntiColState::ReadyA, 0x01),
        (AntiColState::Active, 0x04),
        (AntiColState::Halt, 0x80),
        (AntiColState::ReadyAs, 0x81),
        (AntiColState::ActiveAs, 0x84),
    ] {
        assert_eq!(state.code(), byte);
        assert_eq!(AntiColState::try_from(byte), Ok(state));
    }
    assert!(AntiColState::try_from(0x02).is_err());
}

#[test]
fn status_codes_round_trip() {
    for code in 0..=255u8 {
        assert_eq!(u8::from(St25r95Error::from(code)), code);
    }
    assert_eq!(St25r95Error::from(0x8D), St25r95Error::CrcError);
    assert_eq!(Error::from(St25r95Error::UserStop), Error::Hw(St25r95Error::UserStop));
}

#[test]
fn test_expect_data_len_rejects_hardware_status_codes() {
    for (status, expected) in [
        (0x63, St25r95Error::EmdSOFerror23),
        (0x8F, St25r95Error::NoField),
        (0x82, St25r95Error::InvalidCommandLength),
        (0x87, St25r95Error::FrameTimeoutOrNoTag),
        (0x84, St25r95Error::UnknownError(0x84)),
    ] {
        let response = ReadResponse::try_from([status, 0x00].as_slice()).unwrap();
        assert_eq!(response.expect_data_len(0), Err(Error::Hw(expected)));
    }
}

#[test]
fn read_response_status_and_length() {
    let response = ReadResponse::try_from([0x80, 0x02, 0x44, 0x00].as_slice()).unwrap();
    assert_eq!(response.code, 0x80);
    assert_eq!(response.ensure_ok(), Ok(()));
    assert_eq!(response.expect_data_len(2), Ok(()));
    assert_eq!(
        response.expect_data_len(3),
        Err(Error::InvalidResponseLength {
            expected: 3,
            actual: 2
        })
    );
    assert_eq!(ReadResponse::code(0x8D), 0x8D);
    assert_eq!(ReadResponse::code(0xA0), 0x80);
    assert_eq!(ReadResponse::code(0xB0), 0x90);
    assert_eq!(
        ReadResponse::try_from([0x00].as_slice()),
        Err(Error::InvalidDataLen(1))
    );
    assert_eq!(
        ReadResponse::try_from([0x00, 0x02, 0x01].as_slice()),
        Err(Error::InvalidDataLen(3))
    );
}

#[test]
fn test_echo_response_wire_forms() {
    // Ordinary Echo.
    assert_eq!(
        EchoResponse::try_from([ECHO_BYTE].as_slice()),
        Ok(EchoResponse::Echo)
    );

    // Echo that leaves Listen mode, followed by its framed UserStop.
    match EchoResponse::try_from([ECHO_BYTE, 0x85, 0x00].as_slice()) {
        Ok(EchoResponse::ListenCancelled(response)) => {
            assert_eq!(response.code, 0x85);
            assert_eq!(response.data.len(), 0);
            assert_eq!(
                response.expect_data_len(0),
                Err(Error::Hw(St25r95Error::UserStop))
            );
        }
        other => panic!("expected a cancelled listen, got {other:?}"),
    }

    // Short reads.
    assert_eq!(
        EchoResponse::try_from([].as_slice()),
        Err(Error::EchoFailed)
    );
    assert_eq!(
        EchoResponse::try_from([ECHO_BYTE, 0x85].as_slice()),
        Err(Error::InvalidDataLen(1))
    );

    // Extra bytes trailing an otherwise complete answer.
    assert_eq!(
        EchoResponse::try_from([ECHO_BYTE, 0x85, 0x00, 0x00].as_slice()),
        Err(Error::InvalidDataLen(3))
    );

    // A late response left over from a previous command is not an Echo.
    assert_eq!(
        EchoResponse::try_from([0x80, 0x02, 0x26].as_slice()),
        Err(Error::EchoFailed)
    );
    for byte in [0x00, 0x54, 0x56, 0xFF] {
        assert_eq!(
            EchoResponse::try_from([byte].as_slice()),
            Err(Error::EchoFailed)
        );
    }
}

fn check_range(code: u8, len_range: std::ops::Range<u8>, res_range: std::ops::Range<usize>) {
    for len in len_range {
        let res = ReadResponse::data_len([code, len]);
        assert!(res_range.contains(&res))
    }
}

#[test]
fn test_len_decode() {
    // See datasheet Table 8.
    check_range(0x80, 0x00..0xff, 0..255);
    check_range(0xA0, 0x00..0xff, 256..511);
    check_range(0xC0, 0x00..0x10, 512..528);
    check_range(0x90, 0x00..0xff, 0..255);
    check_range(0xB0, 0x00..0xff, 256..511);
    check_range(0xD0, 0x00..0x10, 512..528);
    assert_eq!(ReadResponse::data_len([0, 0]), 0);
    assert_eq!(ReadResponse::data_len([0x90, 8]), 8);
    assert_eq!(ReadResponse::data_len([0x87, 9]), 9);
    // Long frame: 300 bytes.
    assert_eq!(ReadResponse::data_len([0xA0, 44]), 300);
}

#[test]
fn test_from_slice() {
    assert_eq!(
        ReadResponse::try_from([0, 0].as_slice()),
        Ok(ReadResponse {
            code: 0,
            data: FrameData::new()
        })
    );
}

#[test]
fn long_frame_payload() {
    let mut bytes = vec![0xA0, 44];
    bytes.extend(std::iter::repeat(0x5A).take(300));
    let response = ReadResponse::try_from(bytes.as_slice()).unwrap();
    assert_eq!(response.code, 0x80);
    assert_eq!(response.data.len(), 300);
    assert_eq!(response.data.as_slice()[299], 0x5A);
}

#[test]
fn read_response_clone_keeps_payload() {
    let response = ReadResponse::try_from([0x80, 0x03, 0x01, 0x02, 0x03].as_slice()).unwrap();
    let copy = response.clone();
    assert_eq!(copy.code, 0x80);
    assert_eq!(copy.data.as_slice(), &[0x01, 0x02, 0x03]);
    assert_eq!(copy, response);
}

#[test]
fn data_len_never_exceeds_the_buffer() {
    assert_eq!(ReadResponse::data_len([0xC0, 0x12]), 530);
    assert_eq!(ReadResponse::data_len([0xC0, 0x13]), MAX_BUFFER_SIZE);
    assert_eq!(ReadResponse::data_len([0xE0, 0xFF]), MAX_BUFFER_SIZE);
    assert_eq!(ReadResponse::data_len([0xD0, 0xFF]), MAX_BUFFER_SIZE);
}
