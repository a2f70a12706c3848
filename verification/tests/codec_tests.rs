use bmi323::codec::decode_sensor_conf;
use bmi323::codec::encode_int_map_word;
use bmi323::codec::encode_sensor_conf;
use bmi323::codec::word_to_le_bytes;
use bmi323::config::AccelConfig;
use bmi323::config::GyroConfig;
use bmi323::AccelerometerPowerMode;
use bmi323::AccelerometerRange;
use bmi323::AverageNum;
use bmi323::Bandwidth;
use bmi323::GyroscopePowerMode;
use bmi323::GyroscopeRange;
use bmi323::OutputDataRate;

#[test]
fn encodes_the_documented_accel_configuration_word() {
    // 100 Hz, ±16 g, quarter-ODR bandwidth, no averaging, normal mode
    let w = encode_sensor_conf(0x08, 0x03, 0x01, 0x00, 0x04);
    assert_eq!(word_to_le_bytes(w), (0xB8, 0x40));
}

#[test]
fn decode_inverts_encode_on_sample_configurations() {
    let samples: [(u8, u8, u8, u8, u8); 4] = [
        (0x08, 0x03, 0x01, 0x00, 0x04),
        (0x01, 0x00, 0x00, 0x06, 0x07),
        (0x0E, 0x02, 0x01, 0x03, 0x03),
        (0x0A, 0x04, 0x00, 0x01, 0x00),
    ];
    for (odr, range, bw, avg, mode) in samples {
        let w = encode_sensor_conf(odr, range, bw, avg, mode);
        assert_eq!(decode_sensor_conf(w), (odr, range, bw, avg, mode));
    }
}

#[test]
fn encode_discards_field_bits_outside_the_masks() {
    // An output data rate wider than its four-bit field keeps only the
    // low bits.
    let w = encode_sensor_conf(0xF8, 0x0B, 0x03, 0x0F, 0x0C);
    assert_eq!(decode_sensor_conf(w), (0x08, 0x03, 0x01, 0x07, 0x04));
}

#[test]
fn builder_configs_encode_to_the_documented_words() {
    let accel_config = AccelConfig::builder()
        .odr(OutputDataRate::Odr100hz)
        .range(AccelerometerRange::G16)
        .bw(Bandwidth::OdrQuarter)
        .avg_num(AverageNum::Avg64)
        .mode(AccelerometerPowerMode::Normal)
        .build();
    assert_eq!(word_to_le_bytes(accel_config.to_reg_value()), (0xB8, 0x46));

    let gyro_config = GyroConfig::builder()
        .odr(OutputDataRate::Odr100hz)
        .range(GyroscopeRange::DPS2000)
        .bw(Bandwidth::OdrHalf)
        .avg_num(AverageNum::Avg64)
        .mode(GyroscopePowerMode::Normal)
        .build();
    assert_eq!(word_to_le_bytes(gyro_config.to_reg_value()), (0x48, 0x46));
}

#[test]
fn builder_fills_unchosen_fields_with_defaults() {
    let accel_config = AccelConfig::builder().build();
    assert_eq!(accel_config.odr, OutputDataRate::Odr100hz);
    assert_eq!(accel_config.range, AccelerometerRange::G8);
    assert_eq!(accel_config.bw, Bandwidth::OdrQuarter);
    assert_eq!(accel_config.avg_num, AverageNum::Avg1);
    assert_eq!(accel_config.mode, AccelerometerPowerMode::Normal);

    let gyro_config = GyroConfig::builder().build();
    assert_eq!(gyro_config.odr, OutputDataRate::Odr100hz);
    assert_eq!(gyro_config.range, GyroscopeRange::DPS2000);
    assert_eq!(gyro_config.bw, Bandwidth::OdrHalf);
    assert_eq!(gyro_config.avg_num, AverageNum::Avg1);
    assert_eq!(gyro_config.mode, GyroscopePowerMode::Normal);
}

#[test]
fn interrupt_map_word_packs_two_bit_selectors() {
    let w = encode_int_map_word(1, 2, 3, 0, 1, 0, 0, 2);
    assert_eq!(w, 0x8139);
    assert_eq!(encode_int_map_word(0, 0, 0, 0, 0, 0, 0, 0), 0);
    assert_eq!(encode_int_map_word(3, 3, 3, 3, 3, 3, 3, 3), 0xFFFF);
}
