use bmi323::AccelerometerRange;
use bmi323::GyroscopeRange;
use bmi323::Sensor3DData;

#[test]
fn can_decode_positive_array() {
    let result = Sensor3DData::from_le_slice(&[0x01, 0x02, 0x03, 0x04, 0x05, 0x06]);
    assert_eq!(
        result,
        Sensor3DData {
            x: 0x0201,
            y: 0x0403,
            z: 0x0605
        }
    );
}

#[test]
fn can_decode_negative_array() {
    let result = Sensor3DData::from_le_slice(&[0x0B, 0x86, 0x0B, 0x86, 0x0B, 0x86]);
    assert_eq!(
        result,
        Sensor3DData {
            x: -31221,
            y: -31221,
            z: -31221
        }
    );
}

#[test]
fn test_accelerometer_range_default() {
    assert_eq!(AccelerometerRange::default(), AccelerometerRange::G8);
}

#[test]
fn test_gyroscope_range_default() {
    assert_eq!(GyroscopeRange::default(), GyroscopeRange::DPS2000);
}

#[test]
fn decodes_the_documented_raw_block_prefix() {
    let result = Sensor3DData::from_le_slice(&[0x00, 0x20, 0x00, 0x40, 0xFF, 0x7F]);
    assert_eq!(result.x, 0x2000);
    assert_eq!(result.y, 0x4000);
    assert_eq!(result.z, 0x7FFF);
}

#[test]
fn decodes_the_signed_boundaries() {
    let result = Sensor3DData::from_le_slice(&[0x00, 0x80, 0xFF, 0xFF, 0xFF, 0x7F]);
    assert_eq!(result.x, -32768);
    assert_eq!(result.y, -1);
    assert_eq!(result.z, 32767);
}

#[test]
fn range_codes_match_the_register_map() {
    assert_eq!(AccelerometerRange::G2.code(), 0);
    assert_eq!(AccelerometerRange::G4.code(), 1);
    assert_eq!(AccelerometerRange::G8.code(), 2);
    assert_eq!(AccelerometerRange::G16.code(), 3);
    assert_eq!(GyroscopeRange::DPS125.code(), 0);
    assert_eq!(GyroscopeRange::DPS250.code(), 1);
    assert_eq!(GyroscopeRange::DPS500.code(), 2);
    assert_eq!(GyroscopeRange::DPS1000.code(), 3);
    assert_eq!(GyroscopeRange::DPS2000.code(), 4);
}

#[test]
fn odr_codes_match_the_register_map() {
    assert_eq!(bmi323::OutputDataRate::Odr0_78hz.code(), 0x01);
    assert_eq!(bmi323::OutputDataRate::Odr100hz.code(), 0x08);
    assert_eq!(bmi323::OutputDataRate::Odr400hz.code(), 0x0A);
    assert_eq!(bmi323::OutputDataRate::Odr6400hz.code(), 0x0E);
    assert_eq!(bmi323::AverageNum::Avg1.code(), 0x00);
    assert_eq!(bmi323::AverageNum::Avg64.code(), 0x06);
    assert_eq!(bmi323::Bandwidth::OdrHalf.code(), 0);
    assert_eq!(bmi323::Bandwidth::OdrQuarter.code(), 1);
}
