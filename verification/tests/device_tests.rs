use bmi323::config::AccelConfig;
use bmi323::config::GyroConfig;
use bmi323::interface::Delay;
use bmi323::interface::I2cComm;
use bmi323::AccelerometerPowerMode;
use bmi323::AccelerometerRange;
use bmi323::AverageNum;
use bmi323::Bandwidth;
use bmi323::Bmi323;
use bmi323::Error;
use bmi323::GyroscopePowerMode;
use bmi323::GyroscopeRange;
use bmi323::OutputDataRate;

/// One expected bus transaction: what the driver must send, and what the
/// bus answers.
enum Transaction {
    /// Expected address and payload of a plain write.
    Write(u8, Vec<u8>),
    /// Expected address, payload and requested reply length of a
    /// write-then-read, with the raw reply (dummy bytes included).
    WriteRead(u8, Vec<u8>, Vec<u8>),
}

/// A scripted I2C bus that checks every transaction against its script.
struct I2cMock {
    script: Vec<Transaction>,
    position: usize,
    fail_all: bool,
}

impl I2cMock {
    fn new(script: Vec<Transaction>) -> Self {
        I2cMock {
            script,
            position: 0,
            fail_all: false,
        }
    }

    fn failing() -> Self {
        I2cMock {
            script: Vec::new(),
            position: 0,
            fail_all: true,
        }
    }

    fn done(&self) {
        assert_eq!(self.position, self.script.len(), "not every expected transaction happened");
    }
}

impl I2cComm for I2cMock {
    type BusError = u8;

    fn bus_write(&mut self, address: u8, bytes: &Vec<u8>) -> Result<(), u8> {
        if self.fail_all {
            return Err(1);
        }
        assert!(self.position < self.script.len(), "unexpected extra write");
        match &self.script[self.position] {
            Transaction::Write(expected_address, expected_bytes) => {
                assert_eq!(address, *expected_address);
                assert_eq!(bytes, expected_bytes);
            }
            Transaction::WriteRead(_, _, _) => panic!("expected a write-read, got a write"),
        }
        self.position += 1;
        Ok(())
    }

    fn bus_write_read(&mut self, address: u8, bytes: &Vec<u8>, read_len: usize) -> Result<Vec<u8>, u8> {
        if self.fail_all {
            return Err(1);
        }
        assert!(self.position < self.script.len(), "unexpected extra write-read");
        let reply = match &self.script[self.position] {
            Transaction::WriteRead(expected_address, expected_bytes, reply) => {
                assert_eq!(address, *expected_address);
                assert_eq!(bytes, expected_bytes);
                assert_eq!(read_len, reply.len());
                reply.clone()
            }
            Transaction::Write(_, _) => panic!("expected a write, got a write-read"),
        };
        self.position += 1;
        Ok(reply)
    }
}

struct MockDelay;

impl Delay for MockDelay {
    fn delay_us(&mut self, _us: u32) {}
}

#[test]
fn test_bmi323_init() {
    let script = vec![
        Transaction::Write(0x68, vec![0x7E, 0xAF, 0xDE]),
        Transaction::WriteRead(0x68, vec![0x00], vec![0x00, 0x00, 0x43]),
    ];
    let i2c = I2cMock::new(script);
    let delay = MockDelay;
    let mut bmi323 = Bmi323::new_with_i2c(i2c, 0x68, delay);

    bmi323.init().unwrap();

    bmi323.iface.i2c.done();
}

#[test]
fn init_rejects_a_wrong_chip_id_byte() {
    let script = vec![
        Transaction::Write(0x68, vec![0x7E, 0xAF, 0xDE]),
        Transaction::WriteRead(0x68, vec![0x00], vec![0x00, 0x00, 0x42]),
    ];
    let i2c = I2cMock::new(script);
    let mut bmi323 = Bmi323::new_with_i2c(i2c, 0x68, MockDelay);

    assert!(matches!(bmi323.init(), Err(Error::InvalidDevice)));
    bmi323.iface.i2c.done();
}

#[test]
fn init_propagates_a_bus_failure() {
    let mut bmi323 = Bmi323::new_with_i2c(I2cMock::failing(), 0x68, MockDelay);
    assert!(matches!(bmi323.init(), Err(Error::Comm(1))));
}

#[test]
fn test_bmi323_set_sensor_config() {
    let script = vec![
        Transaction::Write(0x68, vec![0x20, 0xB8, 0x46]), // Accelerometer config
        Transaction::Write(0x68, vec![0x21, 0x48, 0x46]), // Gyroscope config
    ];
    let i2c = I2cMock::new(script);
    let delay = MockDelay;
    let mut bmi323 = Bmi323::new_with_i2c(i2c, 0x68, delay);

    let accel_config = AccelConfig::builder()
        .odr(OutputDataRate::Odr100hz)
        .range(AccelerometerRange::G16)
        .bw(Bandwidth::OdrQuarter) // ODR/4
        .avg_num(AverageNum::Avg64)
        .mode(AccelerometerPowerMode::Normal)
        .build();

    let gyro_config = GyroConfig::builder()
        .odr(OutputDataRate::Odr100hz)
        .range(GyroscopeRange::DPS2000)
        .bw(Bandwidth::OdrHalf) // ODR/2
        .avg_num(AverageNum::Avg64)
        .mode(GyroscopePowerMode::Normal)
        .build();

    bmi323.set_accel_config(accel_config).unwrap();
    bmi323.set_gyro_config(gyro_config).unwrap();

    assert_eq!(bmi323.accel_range, AccelerometerRange::G16);
    assert_eq!(bmi323.gyro_range, GyroscopeRange::DPS2000);
    bmi323.iface.i2c.done();
}

#[test]
fn set_accel_config_writes_the_documented_bytes() {
    let script = vec![Transaction::Write(0x68, vec![0x20, 0xB8, 0x40])];
    let i2c = I2cMock::new(script);
    let mut bmi323 = Bmi323::new_with_i2c(i2c, 0x68, MockDelay);

    let accel_config = AccelConfig::builder()
        .odr(OutputDataRate::Odr100hz)
        .range(AccelerometerRange::G16)
        .bw(Bandwidth::OdrQuarter)
        .avg_num(AverageNum::Avg1)
        .mode(AccelerometerPowerMode::Normal)
        .build();

    bmi323.set_accel_config(accel_config).unwrap();
    assert_eq!(bmi323.accel_range, AccelerometerRange::G16);
    bmi323.iface.i2c.done();
}

#[test]
fn accel_builder_config_rejects_low_rates_in_normal_mode() {
    // Nothing may be written: an empty script fails on any transaction.
    let i2c = I2cMock::new(Vec::new());
    let mut bmi323 = Bmi323::new_with_i2c(i2c, 0x68, MockDelay);

    let accel_config = AccelConfig::builder()
        .odr(OutputDataRate::Odr6_25hz)
        .mode(AccelerometerPowerMode::Normal)
        .build();

    assert!(matches!(
        bmi323.set_accel_config(accel_config),
        Err(Error::InvalidConfig)
    ));
    assert_eq!(bmi323.accel_range, AccelerometerRange::G8);
    bmi323.iface.i2c.done();
}

#[test]
fn set_accel_config_applies_the_skipped_samples_rule() {
    // 400 Hz with 16 averaged samples leaves no skipped-samples margin.
    let i2c = I2cMock::new(Vec::new());
    let mut bmi323 = Bmi323::new_with_i2c(i2c, 0x68, MockDelay);
    let rejected = AccelConfig::builder()
        .odr(OutputDataRate::Odr400hz)
        .avg_num(AverageNum::Avg16)
        .mode(AccelerometerPowerMode::LowPower)
        .build();
    assert!(matches!(
        bmi323.set_accel_config(rejected),
        Err(Error::InvalidConfig)
    ));
    bmi323.iface.i2c.done();

    // 400 Hz without averaging leaves a positive margin and is written.
    let script = vec![Transaction::Write(0x68, vec![0x20, 0x2A, 0x30])];
    let mut bmi323 = Bmi323::new_with_i2c(I2cMock::new(script), 0x68, MockDelay);
    let accepted = AccelConfig::builder()
        .odr(OutputDataRate::Odr400hz)
        .range(AccelerometerRange::G8)
        .bw(Bandwidth::OdrHalf)
        .avg_num(AverageNum::Avg1)
        .mode(AccelerometerPowerMode::LowPower)
        .build();
    bmi323.set_accel_config(accepted).unwrap();
    bmi323.iface.i2c.done();
}

#[test]
fn set_gyro_config_applies_the_skipped_samples_rule() {
    let i2c = I2cMock::new(Vec::new());
    let mut bmi323 = Bmi323::new_with_i2c(i2c, 0x68, MockDelay);
    let rejected = GyroConfig::builder()
        .odr(OutputDataRate::Odr400hz)
        .avg_num(AverageNum::Avg16)
        .mode(GyroscopePowerMode::LowPower)
        .build();
    assert!(matches!(
        bmi323.set_gyro_config(rejected),
        Err(Error::InvalidConfig)
    ));
    assert_eq!(bmi323.gyro_range, GyroscopeRange::DPS2000);
    bmi323.iface.i2c.done();
}

#[test]
fn test_bmi323_read_sensor_data() {
    let mut reply = vec![0u8; 22];
    reply[0] = 0;
    reply[1] = 0;
    let script = vec![Transaction::WriteRead(0x68, vec![0x03], reply)];
    let i2c = I2cMock::new(script);
    let delay = MockDelay;
    let mut bmi323 = Bmi323::new_with_i2c(i2c, 0x68, delay);

    let sensor_data = bmi323.read_accel_data().unwrap();
    assert_eq!(sensor_data.x, 0);
    assert_eq!(sensor_data.y, 0);
    assert_eq!(sensor_data.z, 0);

    bmi323.iface.i2c.done();
}

#[test]
fn read_accel_data_skips_the_dummy_bytes() {
    // Two dummy bytes precede the payload; the axis words follow.
    let mut reply = vec![0u8; 22];
    reply[0] = 0xEE;
    reply[1] = 0xEE;
    reply[2] = 0x00;
    reply[3] = 0x20;
    reply[4] = 0x00;
    reply[5] = 0x40;
    reply[6] = 0xFF;
    reply[7] = 0x7F;
    let script = vec![Transaction::WriteRead(0x68, vec![0x03], reply)];
    let mut bmi323 = Bmi323::new_with_i2c(I2cMock::new(script), 0x68, MockDelay);

    let sensor_data = bmi323.read_accel_data().unwrap();
    assert_eq!(sensor_data.x, 0x2000);
    assert_eq!(sensor_data.y, 0x4000);
    assert_eq!(sensor_data.z, 0x7FFF);
    bmi323.iface.i2c.done();
}

#[test]
fn read_gyro_data_reads_its_own_block() {
    let mut reply = vec![0u8; 16];
    reply[2] = 0x01;
    reply[3] = 0x02;
    reply[4] = 0x0B;
    reply[5] = 0x86;
    let script = vec![Transaction::WriteRead(0x68, vec![0x06], reply)];
    let mut bmi323 = Bmi323::new_with_i2c(I2cMock::new(script), 0x68, MockDelay);

    let sensor_data = bmi323.read_gyro_data().unwrap();
    assert_eq!(sensor_data.x, 0x0201);
    assert_eq!(sensor_data.y, -31221);
    assert_eq!(sensor_data.z, 0);
    bmi323.iface.i2c.done();
}
