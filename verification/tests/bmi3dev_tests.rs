use bmi323::bmi3_config::Bmi3AccelConfig;
use bmi323::bmi3_config::Bmi3GyroConfig;
use bmi323::bmi3_config::Bmi3SensConfig;
use bmi323::bmi3_sens_axes::Bmi3SensAxesData;
use bmi323::bmi3dev::Bmi3Dev;
use bmi323::bmi3dev::Bmi3Transport;
use bmi323::bmi3mapint::Bmi3MapInt;
use bmi323::enums::Bmi3Error;
use bmi323::enums::Bmi3Intf;
use bmi323::enums::Bmi3SensConfigTypes;
use bmi323::enums::I2cError;
use bmi323::enums::SensorType;

/// One expected transport operation and its scripted outcome.
enum Op {
    /// Expected wire address and data of a register write.
    Write(u8, Vec<u8>),
    /// Expected wire address and raw length of a register read, with the
    /// raw reply (dummy bytes included).
    Read(u8, Vec<u8>),
    /// A register write that the bus fails.
    FailWrite(u8),
}

/// A scripted transport that checks every operation against its script.
struct MockTransport {
    script: Vec<Op>,
    position: usize,
}

impl MockTransport {
    fn new(script: Vec<Op>) -> Self {
        MockTransport {
            script,
            position: 0,
        }
    }

    fn done(&self) {
        assert_eq!(self.position, self.script.len(), "not every expected operation happened");
    }
}

impl Bmi3Transport for MockTransport {
    fn read(&mut self, reg_addr: u8, len: usize) -> Result<Vec<u8>, I2cError> {
        assert!(self.position < self.script.len(), "unexpected extra read");
        let reply = match &self.script[self.position] {
            Op::Read(expected_addr, reply) => {
                assert_eq!(reg_addr, *expected_addr);
                assert_eq!(len, reply.len());
                reply.clone()
            }
            _ => panic!("expected another operation, got a read"),
        };
        self.position += 1;
        Ok(reply)
    }

    fn write(&mut self, reg_addr: u8, reg_data: &Vec<u8>) -> Result<(), I2cError> {
        assert!(self.position < self.script.len(), "unexpected extra write");
        match &self.script[self.position] {
            Op::Write(expected_addr, expected_data) => {
                assert_eq!(reg_addr, *expected_addr);
                assert_eq!(reg_data, expected_data);
                self.position += 1;
                Ok(())
            }
            Op::FailWrite(expected_addr) => {
                assert_eq!(reg_addr, *expected_addr);
                self.position += 1;
                Err(I2cError::ComFail)
            }
            _ => panic!("expected another operation, got a write"),
        }
    }

    fn delay_us(&mut self, _period: u32) {}
}

/// A handle on the I2C interface with a transport scripted to expect `script`.
fn i2c_device(script: Vec<Op>) -> Bmi3Dev<MockTransport> {
    let mut dev: Bmi3Dev<MockTransport> = Bmi3Dev::default();
    dev.intf = Bmi3Intf::I2c;
    dev.transport = Some(MockTransport::new(script));
    dev
}

/// The script of a complete soft-reset sequence on I2C with `dummy` dummy
/// bytes, ending with a first poll that reports the feature engine ready.
fn soft_reset_script(dummy: usize) -> Vec<Op> {
    vec![
        Op::Write(0x7E, vec![0xAF, 0xDE]),
        Op::Write(0x12, vec![0x2C, 0x01]),
        Op::Write(0x14, vec![0x01, 0x00]),
        Op::Write(0x40, vec![0x01, 0x00]),
        Op::Read(0x11, {
            let mut reply = vec![0u8; dummy + 2];
            reply[dummy] = 0x01;
            reply
        }),
    ]
}

#[test]
fn operations_fail_fast_without_a_transport() {
    let mut dev: Bmi3Dev<MockTransport> = Bmi3Dev::default();
    assert_eq!(dev.null_ptr_check(), Err(Bmi3Error::NullPtr));
    assert_eq!(dev.bmi3_init(), Err(Bmi3Error::NullPtr));
    assert_eq!(dev.bmi3_soft_reset(), Err(Bmi3Error::NullPtr));
    let mut config = Bmi3AccelConfig::default();
    assert_eq!(dev.set_accel_config(&mut config), Err(Bmi3Error::NullPtr));
    let mut gyro = Bmi3GyroConfig::default();
    assert_eq!(dev.set_gyro_config(&mut gyro), Err(Bmi3Error::NullPtr));
    assert_eq!(dev.get_accel_config(&mut config), Err(Bmi3Error::NullPtr));
    assert_eq!(
        dev.get_accel_sensor_data(0x03).unwrap_err(),
        Bmi3Error::NullPtr
    );
}

#[test]
fn configuration_proceeds_without_init_once_a_transport_is_attached() {
    // Writing a configuration is not gated on a prior initialization.
    let script = vec![Op::Write(0x20, vec![0x08, 0x40])];
    let mut dev = i2c_device(script);
    let mut config = Bmi3AccelConfig {
        odr: 0x08,
        bwp: 0,
        acc_mode: 0x04,
        range: 0x00,
        avg_num: 0x00,
    };
    dev.set_accel_config(&mut config).unwrap();
    dev.transport.as_ref().unwrap().done();
}

#[test]
fn init_records_chip_state_on_i2c() {
    let mut script = soft_reset_script(2);
    script.push(Op::Read(0x00, vec![0x00, 0x00, 0x43, 0x10]));
    script.push(Op::Read(0x01, vec![0x00, 0x00, 0x00, 0x00]));
    let mut dev = i2c_device(script);

    dev.bmi3_init().unwrap();

    assert_eq!(dev.chip_id, 0x43);
    assert_eq!(dev.resolution, 16);
    assert_eq!(dev.dummy_byte, 2);
    assert_eq!(dev.accel_bit_width, 0x3FFF);
    dev.transport.as_ref().unwrap().done();
}

#[test]
fn init_rejects_a_wrong_chip_id() {
    let mut script = soft_reset_script(2);
    script.push(Op::Read(0x00, vec![0x00, 0x00, 0x42, 0x10]));
    script.push(Op::Read(0x01, vec![0x00, 0x00, 0x00, 0x00]));
    let mut dev = i2c_device(script);

    assert_eq!(dev.bmi3_init(), Err(Bmi3Error::DevNotFound));
    dev.transport.as_ref().unwrap().done();
}

#[test]
fn init_decorates_addresses_and_discards_a_dummy_read_on_spi() {
    let mut script = vec![
        // Soft reset: writes clear bit 7 (no change for these addresses),
        // reads set bit 7. The first chip-id read after reset is discarded.
        Op::Write(0x7E, vec![0xAF, 0xDE]),
        Op::Read(0x80, vec![0x00, 0x00, 0x00]),
        Op::Write(0x12, vec![0x2C, 0x01]),
        Op::Write(0x14, vec![0x01, 0x00]),
        Op::Write(0x40, vec![0x01, 0x00]),
        Op::Read(0x91, vec![0x00, 0x01, 0x00]),
    ];
    script.push(Op::Read(0x80, vec![0x00, 0x43, 0x00]));
    script.push(Op::Read(0x81, vec![0x00, 0x00, 0x00]));
    let mut dev: Bmi3Dev<MockTransport> = Bmi3Dev::default();
    dev.intf = Bmi3Intf::Spi;
    dev.transport = Some(MockTransport::new(script));

    dev.bmi3_init().unwrap();

    assert_eq!(dev.chip_id, 0x43);
    assert_eq!(dev.dummy_byte, 1);
    assert_eq!(dev.accel_bit_width, 0x1FFF);
    dev.transport.as_ref().unwrap().done();
}

#[test]
fn soft_reset_keeps_polling_until_the_engine_answers() {
    let not_ready = || Op::Read(0x11, vec![0x00, 0x00]);
    let mut script = vec![
        Op::Write(0x7E, vec![0xAF, 0xDE]),
        Op::Write(0x12, vec![0x2C, 0x01]),
        Op::Write(0x14, vec![0x01, 0x00]),
        Op::Write(0x40, vec![0x01, 0x00]),
    ];
    script.push(not_ready());
    script.push(not_ready());
    script.push(Op::Read(0x11, vec![0x01, 0x00]));
    let mut dev = i2c_device(script);

    dev.bmi3_soft_reset().unwrap();
    dev.transport.as_ref().unwrap().done();
}

#[test]
fn soft_reset_gives_up_after_ten_polls() {
    let mut script = vec![
        Op::Write(0x7E, vec![0xAF, 0xDE]),
        Op::Write(0x12, vec![0x2C, 0x01]),
        Op::Write(0x14, vec![0x01, 0x00]),
        Op::Write(0x40, vec![0x01, 0x00]),
    ];
    for _ in 0..10 {
        script.push(Op::Read(0x11, vec![0x00, 0x00]));
    }
    let mut dev = i2c_device(script);

    // The polling loop is bounded and its exhaustion is not an error.
    dev.bmi3_soft_reset().unwrap();
    dev.transport.as_ref().unwrap().done();
}

#[test]
fn check_boundary_val_clamps_and_records_flags() {
    let mut dev = i2c_device(Vec::new());

    assert_eq!(dev.check_boundary_val(Some(5), 1, 14), Ok(5));
    assert_eq!(dev.info, 0);

    assert_eq!(dev.check_boundary_val(Some(0), 1, 14), Ok(1));
    assert_eq!(dev.info, 1);

    dev.info = 0;
    assert_eq!(dev.check_boundary_val(Some(15), 1, 14), Ok(14));
    assert_eq!(dev.info, 2);

    dev.info = 0;
    assert_eq!(dev.check_boundary_val(None, 1, 14), Err(Bmi3Error::NullPtr));
    assert_eq!(dev.info, 0);
}

#[test]
fn set_accel_config_clamps_fields_before_writing() {
    // An out-of-range rate and range are clamped to their bounds and the
    // clamped configuration is what reaches the register.
    let script = vec![Op::Write(0x20, vec![0x3E, 0x40])];
    let mut dev = i2c_device(script);
    let mut config = Bmi3AccelConfig {
        odr: 0xFF,
        bwp: 0,
        acc_mode: 0x04,
        range: 0xFF,
        avg_num: 0x00,
    };
    dev.set_accel_config(&mut config).unwrap();
    assert_eq!(config.odr, 0x0E);
    assert_eq!(config.range, 0x03);
    assert_eq!(dev.info, 2);
    dev.transport.as_ref().unwrap().done();
}

#[test]
fn set_accel_config_rejects_low_rates_in_normal_mode() {
    let mut dev = i2c_device(Vec::new());
    let mut config = Bmi3AccelConfig {
        odr: 0x03,
        bwp: 0,
        acc_mode: 0x04,
        range: 0x00,
        avg_num: 0x00,
    };
    assert_eq!(
        dev.set_accel_config(&mut config),
        Err(Bmi3Error::AccInvalidCfg)
    );
    dev.transport.as_ref().unwrap().done();
}

#[test]
fn low_power_rejection_follows_the_skipped_samples_formula() {
    // 400 Hz with 16 averaged samples: 6400 / 400 - 16 = 0, no margin.
    let mut dev = i2c_device(Vec::new());
    let mut config = Bmi3AccelConfig {
        odr: 0x0A,
        bwp: 0,
        acc_mode: 0x03,
        range: 0x00,
        avg_num: 0x04,
    };
    assert_eq!(
        dev.set_accel_config(&mut config),
        Err(Bmi3Error::AccInvalidCfg)
    );
    dev.transport.as_ref().unwrap().done();

    // 400 Hz with a single sample: 6400 / 400 - 1 = 15 > 0, accepted.
    let script = vec![Op::Write(0x20, vec![0x0A, 0x30])];
    let mut dev = i2c_device(script);
    let mut config = Bmi3AccelConfig {
        odr: 0x0A,
        bwp: 0,
        acc_mode: 0x03,
        range: 0x00,
        avg_num: 0x00,
    };
    dev.set_accel_config(&mut config).unwrap();
    dev.transport.as_ref().unwrap().done();

    // A rate code above 400 Hz has no low-power table entry at all.
    let mut dev = i2c_device(Vec::new());
    let mut config = Bmi3AccelConfig {
        odr: 0x0B,
        bwp: 0,
        acc_mode: 0x03,
        range: 0x00,
        avg_num: 0x00,
    };
    assert_eq!(
        dev.set_accel_config(&mut config),
        Err(Bmi3Error::InvalidInput)
    );
    dev.transport.as_ref().unwrap().done();
}

#[test]
fn gyro_low_power_rejection_uses_the_gyro_error() {
    let mut dev = i2c_device(Vec::new());
    let mut config = Bmi3GyroConfig {
        odr: 0x0A,
        bwp: 0,
        gyr_mode: 0x03,
        range: 0x00,
        avg_num: 0x04,
    };
    assert_eq!(
        dev.set_gyro_config(&mut config),
        Err(Bmi3Error::GyroInvalidCfg)
    );
    dev.transport.as_ref().unwrap().done();
}

#[test]
fn set_gyro_config_writes_the_encoded_word() {
    let script = vec![Op::Write(0x21, vec![0x48, 0x46])];
    let mut dev = i2c_device(script);
    let mut config = Bmi3GyroConfig {
        odr: 0x08,
        bwp: 0,
        gyr_mode: 0x04,
        range: 0x04,
        avg_num: 0x06,
    };
    dev.set_gyro_config(&mut config).unwrap();
    dev.transport.as_ref().unwrap().done();
}

#[test]
fn set_regs_reports_a_failing_bus() {
    let script = vec![Op::FailWrite(0x20)];
    let mut dev = i2c_device(script);
    let data = vec![0x00, 0x00];
    assert_eq!(dev.bmi3_set_regs(0x20, &data), Err(Bmi3Error::ComFail));
    dev.transport.as_ref().unwrap().done();
}

#[test]
fn set_regs_rejects_empty_data() {
    let mut dev = i2c_device(Vec::new());
    let data: Vec<u8> = Vec::new();
    assert_eq!(dev.bmi3_set_regs(0x20, &data), Err(Bmi3Error::InvalidInput));
}

#[test]
fn boundary_clamp_needs_no_transport() {
    // The clamp is pure bookkeeping: it works before any transport is
    // attached and fails only for an absent value.
    let mut dev: Bmi3Dev<MockTransport> = Bmi3Dev::default();
    assert_eq!(dev.check_boundary_val(Some(0), 1, 14), Ok(1));
    assert_eq!(dev.info, 1);
    assert_eq!(dev.check_boundary_val(None, 1, 14), Err(Bmi3Error::NullPtr));
}

#[test]
fn get_regs_rejects_transfers_beyond_the_buffer() {
    let mut dev = i2c_device(Vec::new());
    dev.dummy_byte = 2;
    assert_eq!(dev.bmi3_get_regs(0x00, 127), Err(Bmi3Error::InvalidInput));
}

#[test]
fn get_accel_config_decodes_the_register_word() {
    let mut dev = i2c_device(vec![Op::Read(0x20, vec![0x00, 0x00, 0xB8, 0x46])]);
    dev.dummy_byte = 2;
    let mut config = Bmi3AccelConfig::default();
    dev.get_accel_config(&mut config).unwrap();
    assert_eq!(
        config,
        Bmi3AccelConfig {
            odr: 0x08,
            bwp: 0x01,
            acc_mode: 0x04,
            range: 0x03,
            avg_num: 0x06,
        }
    );
    dev.transport.as_ref().unwrap().done();
}

#[test]
fn set_then_get_recovers_the_configuration() {
    let mut dev = i2c_device(vec![
        Op::Write(0x20, vec![0xB8, 0x46]),
        Op::Read(0x20, vec![0xB8, 0x46]),
    ]);
    let mut written = Bmi3AccelConfig {
        odr: 0x08,
        bwp: 0x01,
        acc_mode: 0x04,
        range: 0x03,
        avg_num: 0x06,
    };
    dev.set_accel_config(&mut written).unwrap();
    let mut read_back = Bmi3AccelConfig::default();
    dev.get_accel_config(&mut read_back).unwrap();
    assert_eq!(written, read_back);
    dev.transport.as_ref().unwrap().done();
}

#[test]
fn sensor_config_lists_dispatch_per_sensor() {
    let mut dev = i2c_device(vec![
        Op::Write(0x20, vec![0x08, 0x40]),
        Op::Write(0x21, vec![0x08, 0x40]),
    ]);
    let mut accel_entry = Bmi3SensConfig::new(SensorType::Accel);
    if let Some(Bmi3SensConfigTypes::Accel(ref mut c)) = accel_entry.cfg {
        c.odr = 0x08;
        c.acc_mode = 0x04;
    }
    let mut gyro_entry = Bmi3SensConfig::new(SensorType::Gyro);
    if let Some(Bmi3SensConfigTypes::Gyro(ref mut c)) = gyro_entry.cfg {
        c.odr = 0x08;
        c.gyr_mode = 0x04;
    }
    let mut list = vec![accel_entry, gyro_entry];
    dev.bmi3_set_sensor_config(&mut list).unwrap();
    dev.transport.as_ref().unwrap().done();

    // The all-zero gyroscope entry comes back clamped: its rate code is
    // raised to the smallest legal one.
    if let Some(Bmi3SensConfigTypes::Accel(c)) = list[0].cfg {
        assert_eq!(c.odr, 0x08);
    } else {
        panic!("accelerometer entry lost its configuration");
    }
}

#[test]
fn empty_sensor_config_lists_are_rejected() {
    let mut dev = i2c_device(Vec::new());
    let mut list: Vec<Bmi3SensConfig> = Vec::new();
    assert_eq!(dev.bmi3_set_sensor_config(&mut list), Err(Bmi3Error::NullPtr));
    assert_eq!(dev.bmi3_get_sensor_config(&mut list), Err(Bmi3Error::NullPtr));
}

#[test]
fn get_sensor_config_fills_each_entry() {
    let mut dev = i2c_device(vec![Op::Read(0x21, vec![0x48, 0x46])]);
    let mut list = vec![Bmi3SensConfig::new(SensorType::Gyro)];
    dev.bmi3_get_sensor_config(&mut list).unwrap();
    if let Some(Bmi3SensConfigTypes::Gyro(c)) = list[0].cfg {
        assert_eq!(c.odr, 0x08);
        assert_eq!(c.range, 0x04);
        assert_eq!(c.gyr_mode, 0x04);
        assert_eq!(c.avg_num, 0x06);
    } else {
        panic!("gyroscope entry lost its configuration");
    }
    dev.transport.as_ref().unwrap().done();
}

#[test]
fn map_interrupt_writes_both_register_words() {
    let mut map = Bmi3MapInt::default();
    map.no_motion_out = 1;
    map.tilt_out = 2;
    map.tap_out = 3;
    map.fifo_full_int = 1;
    // Word one: no-motion in bits 0..=1, tilt in bits 14..=15; word two:
    // tap in bits 0..=1, FIFO full in bits 14..=15.
    let script = vec![Op::Write(0x3A, vec![0x01, 0x80, 0x03, 0x40])];
    let mut dev = i2c_device(script);
    dev.bmi3_map_interrupt(&mut map).unwrap();
    dev.transport.as_ref().unwrap().done();
}

#[test]
fn interrupt_status_assembles_the_register_word() {
    let mut dev = i2c_device(vec![Op::Read(0x0D, vec![0x34, 0x12])]);
    let mut status: u16 = 0;
    dev.get_interrupt_status(&mut status, 0x0D).unwrap();
    assert_eq!(status, 0x1234);
    dev.transport.as_ref().unwrap().done();
}

#[test]
fn accel_frame_decode_extracts_time_and_saturation() {
    let mut frame = vec![0u8; 22];
    frame[2] = 0x00;
    frame[3] = 0x20;
    frame[4] = 0x00;
    frame[5] = 0x40;
    frame[6] = 0xFF;
    frame[7] = 0x7F;
    frame[16] = 0x11;
    frame[17] = 0x22;
    frame[18] = 0x33;
    frame[19] = 0x44;
    frame[20] = 0x05; // saturation on x and z
    let mut dev = i2c_device(vec![Op::Read(0x03, frame)]);
    dev.dummy_byte = 2;

    let data = dev.get_accel_sensor_data(0x03).unwrap();
    assert_eq!(data.x, 0x2000);
    assert_eq!(data.y, 0x4000);
    assert_eq!(data.z, 0x7FFF);
    assert_eq!(data.sens_time, 0x4433_2211);
    assert_eq!(data.sat_x, 1);
    assert_eq!(data.sat_y, 0);
    assert_eq!(data.sat_z, 1);
    dev.transport.as_ref().unwrap().done();
}

#[test]
fn gyro_frame_decode_uses_the_gyro_offsets() {
    let mut frame = vec![0u8; 16];
    frame[2] = 0x0B;
    frame[3] = 0x86;
    frame[10] = 0xAA;
    frame[11] = 0xBB;
    frame[12] = 0xCC;
    frame[13] = 0xDD;
    frame[14] = 0x38; // saturation on all three gyro axes
    let mut dev = i2c_device(vec![Op::Read(0x06, frame)]);
    dev.dummy_byte = 2;

    let data = dev.get_gyro_sensor_data(0x06).unwrap();
    assert_eq!(data.x, -31221);
    assert_eq!(data.sens_time, 0xDDCC_BBAA);
    assert_eq!(data.sat_x, 1);
    assert_eq!(data.sat_y, 1);
    assert_eq!(data.sat_z, 1);
    dev.transport.as_ref().unwrap().done();
}

#[test]
fn default_sample_marks_every_axis_saturated() {
    let sample = Bmi3SensAxesData::default();
    assert_eq!(sample.x, 0);
    assert_eq!(sample.sat_x, 1);
    assert_eq!(sample.sat_y, 1);
    assert_eq!(sample.sat_z, 1);
}
