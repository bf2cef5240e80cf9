use bme280::measurement_control;
use bme280::Bme280;
use bme280::BmeStatus;
use bme280::CompensationData;
use bme280::HumiditySampling;
use bme280::I2cWrite;
use bme280::I2cWriteRead;
use bme280::PressureSampling;
use bme280::SensorMode;
use bme280::TemperatireSampling;
use bme280::TransactionLog;
use bme280::WriteLog;

#[derive(Debug, PartialEq)]
struct BusFault(usize);

/// A register file standing in for the device, which can be told to fail
/// its n-th transaction.
struct FakeBus {
    registers: [u8; 256],
    transactions: usize,
    fail_at: Option<usize>,
    writes: Vec<(u8, Vec<u8>)>,
    addresses: Vec<u8>,
    reads: Vec<(u8, usize)>,
}

impl FakeBus {
    fn new() -> FakeBus {
        let mut registers = [0u8; 256];
        let mut put16 = |at: usize, v: u16| {
            registers[at] = (v & 0xff) as u8;
            registers[at + 1] = (v >> 8) as u8;
        };
        put16(0x88, 27504);
        put16(0x8A, 26435u16);
        put16(0x8C, (-1000i16) as u16);
        put16(0x8E, 36477);
        put16(0x90, (-10685i16) as u16);
        put16(0x92, 3024);
        put16(0x94, 2855);
        put16(0x96, 140);
        put16(0x98, (-7i16) as u16);
        put16(0x9A, 15500);
        put16(0x9C, (-14600i16) as u16);
        put16(0x9E, 6000);
        put16(0xE1, 362);
        registers[0xA1] = 75;
        registers[0xE3] = 0;
        // 313 = 0x139 packed as 0x13 and low nibble 9; 50 = 0x032 as high
        // nibble 0 and 0x32.
        registers[0xE4] = 0x13;
        registers[0xE5] = 0x09;
        registers[0xE6] = 0x32;
        registers[0xE7] = 30;
        registers[0xD0] = 0x60;
        registers[0xF3] = 0x09;
        // temperature 519888 = 0x7EED0
        registers[0xFA] = 0x7E;
        registers[0xFB] = 0xED;
        registers[0xFC] = 0x00;
        // pressure 415148 = 0x655AC
        registers[0xF7] = 0x65;
        registers[0xF8] = 0x5A;
        registers[0xF9] = 0xC0;
        // humidity 27000 = 0x6978
        registers[0xFD] = 0x69;
        registers[0xFE] = 0x78;
        FakeBus { registers, transactions: 0, fail_at: None, writes: Vec::new(), addresses: Vec::new(), reads: Vec::new() }
    }

    fn step(&mut self, address: u8) -> Result<(), BusFault> {
        let n = self.transactions;
        self.transactions += 1;
        self.addresses.push(address);
        if self.fail_at == Some(n) {
            Err(BusFault(n))
        } else {
            Ok(())
        }
    }
}

impl I2cWriteRead for FakeBus {
    type Error = BusFault;

    fn transactions(&self) -> TransactionLog<BusFault> {
        unreachable!("the transaction log is a model for proofs only")
    }

    fn write_read(&mut self, address: u8, bytes: &[u8], buffer: &mut [u8]) -> Result<(), BusFault> {
        self.reads.push((bytes[0], buffer.len()));
        self.step(address)?;
        let start = bytes[0] as usize;
        for (i, b) in buffer.iter_mut().enumerate() {
            *b = self.registers[start + i];
        }
        Ok(())
    }
}

impl I2cWrite for FakeBus {
    type Error = BusFault;

    fn writes(&self) -> WriteLog<BusFault> {
        unreachable!("the write log is a model for proofs only")
    }

    fn write(&mut self, address: u8, bytes: &[u8]) -> Result<(), BusFault> {
        self.step(address)?;
        self.writes.push((address, bytes.to_vec()));
        Ok(())
    }
}

fn datasheet_coefficients() -> CompensationData {
    CompensationData {
        dig_t1: 27504,
        dig_t2: 26435,
        dig_t3: -1000,
        dig_p1: 36477,
        dig_p2: -10685,
        dig_p3: 3024,
        dig_p4: 2855,
        dig_p5: 140,
        dig_p6: -7,
        dig_p7: 15500,
        dig_p8: -14600,
        dig_p9: 6000,
        dig_h1: 75,
        dig_h2: 362,
        dig_h3: 0,
        dig_h4: 313,
        dig_h5: 50,
        dig_h6: 30,
    }
}

#[test]
fn coefficients_are_read_from_their_registers() {
    let mut bus = FakeBus::new();
    let data = CompensationData::read(&mut bus, 0x76).unwrap();
    assert_eq!(data, datasheet_coefficients());
    assert_eq!(bus.transactions, 18);
}

#[test]
fn calibration_load_fails_atomically() {
    for n in 0..18 {
        let mut bus = FakeBus::new();
        bus.fail_at = Some(n);
        let r = CompensationData::read(&mut bus, 0x76);
        assert_eq!(r, Err(BusFault(n)));
        assert_eq!(bus.transactions, n + 1);
    }
}

#[test]
fn open_fails_on_any_bus_error() {
    for n in 0..19 {
        let mut bus = FakeBus::new();
        bus.fail_at = Some(n);
        assert!(Bme280::address_low(&mut bus).is_err());
    }
    for n in 0..18 {
        let mut bus = FakeBus::new();
        bus.fail_at = Some(n);
        assert!(Bme280::address_high(&mut bus).is_err());
    }
}

#[test]
fn low_address_reads_identification_first() {
    let mut bus = FakeBus::new();
    Bme280::address_low(&mut bus).unwrap();
    assert_eq!(bus.transactions, 19);
    assert!(bus.addresses.iter().all(|a| *a == 0x76));
}

#[test]
fn high_address_skips_identification() {
    let mut bus = FakeBus::new();
    Bme280::address_high(&mut bus).unwrap();
    assert_eq!(bus.transactions, 18);
    assert!(bus.addresses.iter().all(|a| *a == 0x77));
}

#[test]
fn id_is_returned_uninterpreted() {
    let mut bus = FakeBus::new();
    let device = Bme280::address_low(&mut bus).unwrap();
    assert_eq!(device.id(&mut bus), Ok(0x60));
    bus.registers[0xD0] = 0x58;
    assert_eq!(device.id(&mut bus), Ok(0x58));
}

#[test]
fn reset_writes_trigger_value() {
    let mut bus = FakeBus::new();
    let device = Bme280::address_high(&mut bus).unwrap();
    device.reset(&mut bus).unwrap();
    assert_eq!(bus.writes, vec![(0x77, vec![0xE0, 0xB6])]);
}

#[test]
fn sampling_writes_humidity_then_measurement_control() {
    let mut bus = FakeBus::new();
    let device = Bme280::address_low(&mut bus).unwrap();
    device
        .sampling(
            &mut bus,
            HumiditySampling::Sampling16,
            TemperatireSampling::Sampling16,
            PressureSampling::Sampling16,
            SensorMode::Normal,
        )
        .unwrap();
    assert_eq!(bus.writes, vec![(0x76, vec![0xF2, 0x05]), (0x76, vec![0xF4, 0xB7])]);
}

#[test]
fn sampling_stops_at_first_failed_write() {
    let mut bus = FakeBus::new();
    let device = Bme280::address_low(&mut bus).unwrap();
    bus.fail_at = Some(bus.transactions);
    let r = device.sampling(
        &mut bus,
        HumiditySampling::Sampling1,
        TemperatireSampling::Sampling2,
        PressureSampling::Sampling4,
        SensorMode::Foeced,
    );
    assert!(r.is_err());
    assert!(bus.writes.is_empty());
}

#[test]
fn measurement_control_bit_layout() {
    assert_eq!(
        measurement_control(TemperatireSampling::Skipped, PressureSampling::Skipped, SensorMode::Sleep),
        0
    );
    assert_eq!(
        measurement_control(TemperatireSampling::Sampling1, PressureSampling::Sampling8, SensorMode::Foeced),
        0b001_100_01
    );
    assert_eq!(
        measurement_control(TemperatireSampling::Sampling16, PressureSampling::Sampling2, SensorMode::Normal),
        0b101_010_11
    );
    assert_eq!(HumiditySampling::Sampling4.bits(), 0b011);
    assert_eq!(HumiditySampling::Skipped.bits(), 0);
}

#[test]
fn status_flags_follow_their_bits() {
    let mut bus = FakeBus::new();
    let device = Bme280::address_low(&mut bus).unwrap();
    let status = device.status(&mut bus).unwrap();
    assert!(!status.measuring());
    assert!(!status.im_update());
    bus.registers[0xF3] = 0x08;
    let status = device.status(&mut bus).unwrap();
    assert!(!status.measuring());
    assert!(status.im_update());
    bus.registers[0xF3] = 0x00;
    let status = device.status(&mut bus).unwrap();
    assert!(status.measuring());
    assert!(status.im_update());
    let decoded = BmeStatus::from_register(0x01);
    assert_eq!(decoded, BmeStatus::new(true, false));
}

#[test]
fn temperature_of_datasheet_example() {
    let mut bus = FakeBus::new();
    let mut device = Bme280::address_low(&mut bus).unwrap();
    assert_eq!(device.temperature(&mut bus), Ok(2508));
}

#[test]
fn pressure_uses_fine_temperature() {
    let mut bus = FakeBus::new();
    let mut device = Bme280::address_low(&mut bus).unwrap();
    assert_eq!(device.pressure(&mut bus), Ok(24786192));
    device.temperature(&mut bus).unwrap();
    assert_eq!(device.pressure(&mut bus), Ok(25767233));
}

#[test]
fn humidity_uses_fine_temperature() {
    let mut bus = FakeBus::new();
    let mut device = Bme280::address_low(&mut bus).unwrap();
    assert_eq!(device.humidity(&mut bus), Ok(39121));
    device.temperature(&mut bus).unwrap();
    assert_eq!(device.humidity(&mut bus), Ok(39190));
}

#[test]
fn skipped_temperature_reads_zero_and_keeps_fine() {
    let mut bus = FakeBus::new();
    let mut device = Bme280::address_low(&mut bus).unwrap();
    device.temperature(&mut bus).unwrap();
    bus.registers[0xFA] = 0x80;
    bus.registers[0xFB] = 0x00;
    bus.registers[0xFC] = 0x0F;
    assert_eq!(device.temperature(&mut bus), Ok(0));
    assert_eq!(device.pressure(&mut bus), Ok(25767233));
    assert_eq!(device.temperature_from_bytes([0x80, 0x00, 0x00]), 0);
    assert_eq!(device.humidity(&mut bus), Ok(39190));
}

#[test]
fn skipped_pressure_and_humidity_read_zero() {
    let mut bus = FakeBus::new();
    let mut device = Bme280::address_low(&mut bus).unwrap();
    device.temperature(&mut bus).unwrap();
    bus.registers[0xF7] = 0x80;
    bus.registers[0xF8] = 0x00;
    bus.registers[0xF9] = 0x00;
    bus.registers[0xFD] = 0x80;
    bus.registers[0xFE] = 0x00;
    assert_eq!(device.pressure(&mut bus), Ok(0));
    assert_eq!(device.humidity(&mut bus), Ok(0));
    assert_eq!(device.humidity_from_bytes([0x80, 0x00]), 0);
}

#[test]
fn humidity_is_clamped_at_both_ends() {
    let mut bus = FakeBus::new();
    let mut device = Bme280::address_low(&mut bus).unwrap();
    device.temperature(&mut bus).unwrap();
    assert_eq!(device.humidity_from_bytes([0xFF, 0xFF]), 102400);
    assert_eq!(device.humidity_from_bytes([0x00, 0x00]), 0);
}

#[test]
fn measurement_errors_pass_through() {
    let mut bus = FakeBus::new();
    let mut device = Bme280::address_low(&mut bus).unwrap();
    let n = bus.transactions;
    bus.fail_at = Some(n);
    assert_eq!(device.temperature(&mut bus), Err(BusFault(n)));
    bus.fail_at = Some(n + 1);
    assert_eq!(device.pressure(&mut bus), Err(BusFault(n + 1)));
    bus.fail_at = Some(n + 2);
    assert_eq!(device.humidity(&mut bus), Err(BusFault(n + 2)));
    bus.fail_at = Some(n + 3);
    assert_eq!(device.status(&mut bus).map(|s| s.measuring()), Err(BusFault(n + 3)));
    bus.fail_at = Some(n + 4);
    assert_eq!(device.reset(&mut bus), Err(BusFault(n + 4)));
}

#[test]
fn compensation_on_coefficients_directly() {
    let data = datasheet_coefficients();
    let fine = data.fine_temperature(519888);
    assert_eq!(fine, 128422);
    assert_eq!(data.pressure(fine, 415148), 25767233);
    assert_eq!(data.humidity(fine, 27000), 39190);
}

#[test]
fn zero_pressure_denominator_reads_zero() {
    let mut data = datasheet_coefficients();
    data.dig_p1 = 0;
    assert_eq!(data.pressure(128422, 415148), 0);
}

#[test]
fn coefficient_decoding() {
    assert_eq!(CompensationData::decode_u16([0x70, 0x6B]), 27504);
    assert_eq!(CompensationData::decode_i16([0x18, 0xFC]), -1000);
    assert_eq!(CompensationData::decode_i16([0xFF, 0x7F]), 32767);
    assert_eq!(CompensationData::decode_i8(0xE2), -30);
    assert_eq!(CompensationData::decode_i8(0x1E), 30);
    assert_eq!(CompensationData::decode_h4([0x13, 0x29]), 313);
    assert_eq!(CompensationData::decode_h4([0xFF, 0xFF]), 4095);
    assert_eq!(CompensationData::decode_h5([0x09, 0x32]), 50);
    assert_eq!(CompensationData::decode_h5([0xAB, 0xCD]), 0xACD);
}

#[test]
fn calibration_reads_in_register_order() {
    let mut bus = FakeBus::new();
    Bme280::address_low(&mut bus).unwrap();
    let expected: Vec<(u8, usize)> = vec![
        (0xD0, 1),
        (0x88, 2),
        (0x8A, 2),
        (0x8C, 2),
        (0x8E, 2),
        (0x90, 2),
        (0x92, 2),
        (0x94, 2),
        (0x96, 2),
        (0x98, 2),
        (0x9A, 2),
        (0x9C, 2),
        (0x9E, 2),
        (0xA1, 1),
        (0xE1, 2),
        (0xE3, 1),
        (0xE4, 2),
        (0xE5, 2),
        (0xE7, 1),
    ];
    assert_eq!(bus.reads, expected);
    let mut device = Bme280::address_low(&mut FakeBus::new()).unwrap();
    let mut bus = FakeBus::new();
    device.temperature(&mut bus).unwrap();
    device.pressure(&mut bus).unwrap();
    device.humidity(&mut bus).unwrap();
    device.status(&mut bus).unwrap();
    assert_eq!(bus.reads, vec![(0xFA, 3), (0xF7, 3), (0xFD, 2), (0xF3, 1)]);
}
