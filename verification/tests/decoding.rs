use rli_decoder::records::DataCanDump;
use rli_decoder::records::DataDmaDump;
use rli_decoder::records::DataGearboxSensors;
use rli_decoder::records::DataPressures;
use rli_decoder::records::DataSolenoids;
use rli_decoder::records::DataSysUsage;
use rli_decoder::records::PaddlePosition;
use rli_decoder::records::ShifterPosition;
use rli_decoder::registry::DecodeError;
use rli_decoder::registry::LocalRecordData;
use rli_decoder::registry::RecordIdents;

const ALL_IDENTS: [RecordIdents; 6] = [
    RecordIdents::GearboxSensors,
    RecordIdents::SolenoidStatus,
    RecordIdents::CanDataDump,
    RecordIdents::SysUsage,
    RecordIdents::PressureStatus,
    RecordIdents::DmaDump,
];

#[test]
fn identifier_codes_and_lookup() {
    assert_eq!(RecordIdents::GearboxSensors.code(), 0x20);
    assert_eq!(RecordIdents::SolenoidStatus.code(), 0x21);
    assert_eq!(RecordIdents::CanDataDump.code(), 0x22);
    assert_eq!(RecordIdents::SysUsage.code(), 0x23);
    assert_eq!(RecordIdents::PressureStatus.code(), 0x25);
    assert_eq!(RecordIdents::DmaDump.code(), 0x26);
    for id in ALL_IDENTS {
        assert_eq!(RecordIdents::from_code(id.code()), Some(id));
    }
    assert_eq!(RecordIdents::from_code(0x24), None);
    assert_eq!(RecordIdents::from_code(0x00), None);
    assert_eq!(RecordIdents::from_code(0xFF), None);
}

#[test]
fn expected_lengths() {
    assert_eq!(RecordIdents::GearboxSensors.expected_len(), 15);
    assert_eq!(RecordIdents::SolenoidStatus.expected_len(), 32);
    assert_eq!(RecordIdents::CanDataDump.expected_len(), 14);
    assert_eq!(RecordIdents::SysUsage.expected_len(), 24);
    assert_eq!(RecordIdents::PressureStatus.expected_len(), 12);
    assert_eq!(RecordIdents::DmaDump.expected_len(), 2);
}

#[test]
fn wrong_length_is_invalid_response_length_for_every_identifier() {
    for id in ALL_IDENTS {
        let expected = id.expected_len();
        let mut deltas: Vec<usize> = Vec::new();
        if expected > 1 {
            deltas.push(expected - 1);
        }
        deltas.push(0);
        if id != RecordIdents::DmaDump {
            // too long: a fixed-layout identifier rejects any excess
            deltas.push(expected + 1);
            deltas.push(expected + 100);
        }
        for actual in deltas {
            let buf = vec![0u8; actual];
            let got = id.decode(&buf);
            assert_eq!(
                got,
                Err(DecodeError::InvalidResponseLength {
                    identifier: id,
                    expected,
                    actual,
                }),
                "identifier {:?}, length {}",
                id,
                actual
            );
        }
    }
}

#[test]
fn correct_length_never_fails() {
    for id in ALL_IDENTS {
        let buf = vec![0u8; id.expected_len()];
        assert!(id.decode(&buf).is_ok(), "identifier {:?}", id);
    }
    // the DMA dump takes any length of at least 2
    for n in [2usize, 3, 4, 7, 40] {
        let buf = vec![0u8; n];
        assert!(RecordIdents::DmaDump.decode(&buf).is_ok(), "length {}", n);
    }
}

#[test]
fn gearbox_sensors_round_trip() {
    let buf: Vec<u8> = vec![
        0x34, 0x12, // n2_rpm
        0x78, 0x56, // n3_rpm
        0xBC, 0x9A, // calculated_rpm
        0xFA, 0x00, // calc_ratio
        0xE0, 0x2E, // v_batt
        0xEF, 0xBE, 0xAD, 0xDE, // atf_temp_c
        0x01, // parking_lock
    ];
    let got = RecordIdents::GearboxSensors.decode(&buf).unwrap();
    assert_eq!(
        got,
        LocalRecordData::Sensors(DataGearboxSensors {
            n2_rpm: 0x1234,
            n3_rpm: 0x5678,
            calculated_rpm: 0x9ABC,
            calc_ratio: 250,
            v_batt: 12000,
            atf_temp_c: 0xDEADBEEF,
            parking_lock: 1,
        })
    );
}

#[test]
fn solenoid_status_round_trip() {
    let fields: [u16; 16] = [
        100, 200, 300, 400, 500, 600, 700, 800, 900, 1000, 1100, 1200, 1300, 1400, 1500, 0xFFFF,
    ];
    let mut buf: Vec<u8> = Vec::new();
    for f in fields {
        buf.extend_from_slice(&f.to_le_bytes());
    }
    let got = RecordIdents::SolenoidStatus.decode(&buf).unwrap();
    assert_eq!(
        got,
        LocalRecordData::Solenoids(DataSolenoids {
            spc_pwm: 100,
            mpc_pwm: 200,
            tcc_pwm: 300,
            y3_pwm: 400,
            y4_pwm: 500,
            y5_pwm: 600,
            spc_current: 700,
            mpc_current: 800,
            tcc_current: 900,
            targ_spc_current: 1000,
            targ_mpc_current: 1100,
            adjustment_spc: 1200,
            adjustment_mpc: 1300,
            y3_current: 1400,
            y4_current: 1500,
            y5_current: 0xFFFF,
        })
    );
}

#[test]
fn solenoid_total_current() {
    let d = DataSolenoids {
        spc_current: 1,
        mpc_current: 2,
        tcc_current: 4,
        y3_current: 8,
        y4_current: 16,
        y5_current: 32,
        ..Default::default()
    };
    assert_eq!(d.total_current_ma(), 63);
    let all_max = DataSolenoids {
        spc_current: 0xFFFF,
        mpc_current: 0xFFFF,
        tcc_current: 0xFFFF,
        y3_current: 0xFFFF,
        y4_current: 0xFFFF,
        y5_current: 0xFFFF,
        ..Default::default()
    };
    assert_eq!(all_max.total_current_ma(), 6 * 0xFFFF);
}

#[test]
fn can_data_dump_round_trip() {
    let buf: Vec<u8> = vec![
        125, // pedal_position
        0x00, 0x00, // min_torque_ms
        0xD0, 0x07, // max_torque_ms = 2000
        0xFF, 0xFF, // static_torque = sentinel
        0x10, 0x27, // left_rear_rpm = 10000
        0x20, 0x4E, // right_rear_rpm = 20000
        1,    // shift_profile_pressed
        6,    // selector: Drive
        2,    // paddle: Minus
    ];
    let got = RecordIdents::CanDataDump.decode(&buf).unwrap();
    assert_eq!(
        got,
        LocalRecordData::Canbus(DataCanDump {
            pedal_position: 125,
            min_torque_ms: 0,
            max_torque_ms: 2000,
            static_torque: 0xFFFF,
            left_rear_rpm: 10000,
            right_rear_rpm: 20000,
            shift_profile_pressed: 1,
            selector_position: ShifterPosition::Drive,
            paddle_position: PaddlePosition::Minus,
        })
    );
}

#[test]
fn can_data_dump_selector_snv_and_drive() {
    let mut buf = vec![0u8; 14];
    buf[12] = 0xFF;
    buf[13] = 0xFF;
    let got = RecordIdents::CanDataDump.decode(&buf).unwrap();
    if let LocalRecordData::Canbus(d) = got {
        assert_eq!(d.selector_position, ShifterPosition::SNV);
        assert_eq!(d.paddle_position, PaddlePosition::SNV);
    } else {
        panic!("wrong variant");
    }
    buf[12] = 6;
    buf[13] = 0;
    let got = RecordIdents::CanDataDump.decode(&buf).unwrap();
    if let LocalRecordData::Canbus(d) = got {
        assert_eq!(d.selector_position, ShifterPosition::Drive);
        assert_eq!(d.paddle_position, PaddlePosition::NotPressed);
    } else {
        panic!("wrong variant");
    }
}

#[test]
fn can_data_dump_unmapped_codes_stay_observable() {
    let mut buf = vec![0u8; 14];
    buf[12] = 13;
    buf[13] = 4;
    let got = RecordIdents::CanDataDump.decode(&buf).unwrap();
    if let LocalRecordData::Canbus(d) = got {
        assert_eq!(d.selector_position, ShifterPosition::Unknown(13));
        assert_eq!(d.paddle_position, PaddlePosition::Unknown(4));
    } else {
        panic!("wrong variant");
    }
}

#[test]
fn sys_usage_round_trip() {
    let mut buf: Vec<u8> = Vec::new();
    buf.extend_from_slice(&500u16.to_le_bytes());
    buf.extend_from_slice(&250u16.to_le_bytes());
    buf.extend_from_slice(&100_000u32.to_le_bytes());
    buf.extend_from_slice(&200_000u32.to_le_bytes());
    buf.extend_from_slice(&1_000_000u32.to_le_bytes());
    buf.extend_from_slice(&4_000_000u32.to_le_bytes());
    buf.extend_from_slice(&17u32.to_le_bytes());
    let got = RecordIdents::SysUsage.decode(&buf).unwrap();
    assert_eq!(
        got,
        LocalRecordData::SysUsage(DataSysUsage {
            core1_usage: 500,
            core2_usage: 250,
            free_ram: 100_000,
            total_ram: 200_000,
            free_psram: 1_000_000,
            total_psram: 4_000_000,
            num_tasks: 17,
        })
    );
}

#[test]
fn pressure_status_round_trip() {
    let buf: Vec<u8> = vec![
        0x01, 0x00, // spc_pwm
        0x02, 0x00, // mpc_pwm
        0x03, 0x00, // tcc_pwm
        0xE8, 0x03, // spc_pressure = 1000
        0xFF, 0xFF, // mpc_pressure = sentinel
        0xD0, 0x07, // tcc_pressure = 2000
    ];
    let got = RecordIdents::PressureStatus.decode(&buf).unwrap();
    assert_eq!(
        got,
        LocalRecordData::Pressures(DataPressures {
            spc_pwm: 1,
            mpc_pwm: 2,
            tcc_pwm: 3,
            spc_pressure: 1000,
            mpc_pressure: 0xFFFF,
            tcc_pressure: 2000,
        })
    );
}

#[test]
fn dma_dump_masks_each_word_to_twelve_bits() {
    let buf: Vec<u8> = vec![0x01, 0x00, 0xFF, 0x1F, 0x00, 0x00];
    let got = RecordIdents::DmaDump.decode(&buf).unwrap();
    assert_eq!(
        got,
        LocalRecordData::Dma(DataDmaDump {
            adc_detect: 1,
            dma_buffer: vec![0x0FFF, 0x0000],
        })
    );
}

#[test]
fn dma_dump_adc_word_is_not_masked() {
    let buf: Vec<u8> = vec![0xFF, 0xFF];
    let got = RecordIdents::DmaDump.decode(&buf).unwrap();
    assert_eq!(
        got,
        LocalRecordData::Dma(DataDmaDump {
            adc_detect: 0xFFFF,
            dma_buffer: vec![],
        })
    );
}

#[test]
fn dma_dump_ignores_trailing_odd_byte() {
    let buf: Vec<u8> = vec![0x02, 0x00, 0x34, 0x12, 0xAB];
    let got = RecordIdents::DmaDump.decode(&buf).unwrap();
    assert_eq!(
        got,
        LocalRecordData::Dma(DataDmaDump {
            adc_detect: 2,
            dma_buffer: vec![0x0234],
        })
    );
}
