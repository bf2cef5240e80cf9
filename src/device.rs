//! The device handle: bus address, coefficients and the carried fine
//! temperature, with the register protocol of each operation.
use vstd::prelude::*;

use crate::arith::lemma_shr_i64;
use crate::bus::is_register_read;
use crate::bus::one_read;
use crate::bus::I2cWrite;
use crate::bus::I2cWriteRead;
use crate::bus::Transaction;
use crate::calibration::calibration_load;
use crate::calibration::CompensationData;
use crate::compensation::adc16;
use crate::compensation::adc20;
use crate::compensation::fine_temperature_of;
use crate::compensation::humidity_of;
use crate::compensation::pressure_of;
use crate::compensation::temperature_of_fine;
use crate::compensation::FINE_BOUND;
use crate::compensation::HUMIDITY_CLAMP;
use crate::settings::measurement_control;
use crate::settings::HumiditySampling;
use crate::settings::PressureSampling;
use crate::settings::SensorMode;
use crate::settings::TemperatireSampling;

verus! {

pub const BME280_ADDRESS_LOW: u8 = 0x76;
pub const BME280_ADDRESS_HIGH: u8 = 0x77;
pub const BME280_RESET_VALUE: u8 = 0xB6;

pub const REGISTER_ID: u8 = 0xD0;
pub const REGISTER_RESET: u8 = 0xE0;
pub const REGISTER_STATUS: u8 = 0xF3;
pub const REGISTER_PRESSURE: u8 = 0xF7;
pub const REGISTER_TEMPERATURE: u8 = 0xFA;
pub const REGISTER_HUMIDITY: u8 = 0xFD;
pub const REGISTER_HUMIDITY_CONTROL: u8 = 0xF2;
pub const REGISTER_MEASUREMENT_CONTROL: u8 = 0xF4;

/// The raw reading that marks a disabled temperature or pressure
/// measurement.
pub const SKIPPED_20: u32 = 0x080000;

/// The raw reading that marks a disabled humidity measurement.
pub const SKIPPED_16: u32 = 0x8000;

/// Temperature in hundredths of a degree Celsius for a 20-bit reading; a
/// disabled measurement reads 0.
pub open spec fn temperature_reading(c: CompensationData, adc: int) -> int {
    if adc == SKIPPED_20 {
        0
    } else {
        temperature_of_fine(fine_temperature_of(c, adc))
    }
}

/// The fine temperature carried after a reading: a disabled measurement
/// leaves it as it was.
pub open spec fn fine_after(c: CompensationData, fine: int, adc: int) -> int {
    if adc == SKIPPED_20 {
        fine
    } else {
        fine_temperature_of(c, adc)
    }
}

/// Pressure in 1/256 Pa for a 20-bit reading; a disabled measurement reads 0.
pub open spec fn pressure_reading(c: CompensationData, fine: i32, adc: int) -> int {
    if adc == SKIPPED_20 {
        0
    } else {
        pressure_of(c, fine, adc as i64) as int
    }
}

/// Relative humidity in 1/1024 % for a 16-bit reading; a disabled
/// measurement reads 0.
pub open spec fn humidity_reading(c: CompensationData, fine: int, adc: int) -> int {
    if adc == SKIPPED_16 {
        0
    } else {
        humidity_of(c, fine, adc)
    }
}

/// The outcome of a transaction is mirrored in `r`: a failed transaction
/// gives its own error back unchanged.
pub open spec fn read_outcome<E, T>(t: Transaction<E>, r: Result<T, E>) -> bool {
    match r {
        Ok(_) => t.3 is Ok,
        Err(e) => t.3 == Err::<(), E>(e),
    }
}

/// The coefficients of an opened handle, or the error of a failed open.
pub open spec fn calibration_of<E>(r: Result<Bme280, E>) -> Result<CompensationData, E> {
    match r {
        Ok(h) => Ok(h.calibration()),
        Err(e) => Err(e),
    }
}

/// The two flags of the status register.
#[derive(Debug, Clone, Copy, PartialEq, Eq, Structural)]
pub struct BmeStatus {
    measuring: bool,
    im_update: bool,
}

impl BmeStatus {
    pub closed spec fn is_measuring(self) -> bool {
        self.measuring
    }

    pub closed spec fn is_im_update(self) -> bool {
        self.im_update
    }

    pub fn new(measuring: bool, im_update: bool) -> (r: BmeStatus)
        ensures
            r.is_measuring() == measuring,
            r.is_im_update() == im_update,
    {
        BmeStatus { measuring, im_update }
    }

    pub fn measuring(&self) -> (r: bool)
        ensures
            r == self.is_measuring(),
    {
        self.measuring
    }

    pub fn im_update(&self) -> (r: bool)
        ensures
            r == self.is_im_update(),
    {
        self.im_update
    }

    /// Decodes the status register: `measuring` is set while bit 3 is
    /// clear, `im_update` while bit 0 is clear.
    pub fn from_register(byte: u8) -> (r: BmeStatus)
        ensures
            r.is_measuring() == (byte & 0b0000_1000 == 0),
            r.is_im_update() == (byte & 0b0000_0001 == 0),
    {
        BmeStatus::new(byte & 0b0000_1000 == 0, byte & 0b0000_0001 == 0)
    }
}

/// A handle on one device.
#[derive(Debug)]
pub struct Bme280 {
    address: u8,
    temperature_fine: i32,
    compensation_data: CompensationData,
}

impl Bme280 {
    #[verifier::type_invariant]
    spec fn inv(self) -> bool {
        &&& self.compensation_data.wf()
        &&& -FINE_BOUND <= self.temperature_fine <= FINE_BOUND
    }

    /// The bus address the handle talks to.
    pub closed spec fn bus_address(self) -> u8 {
        self.address
    }

    /// The fine temperature left by the last temperature reading.
    pub closed spec fn fine(self) -> i32 {
        self.temperature_fine
    }

    /// The coefficients read when the handle was opened.
    pub closed spec fn calibration(self) -> CompensationData {
        self.compensation_data
    }

    /// Opens the device at the low address: reads the identification
    /// register, then the coefficients.
    pub fn address_low<B: I2cWriteRead>(bus: &mut B) -> (r: Result<Bme280, B::Error>)
        ensures
            final(bus).transactions().len() > old(bus).transactions().len(),
            ({
                let t = final(bus).transactions();
                let n = old(bus).transactions().len() as int;
                &&& t.take(n) == old(bus).transactions()
                &&& is_register_read(t[n], BME280_ADDRESS_LOW, REGISTER_ID, 1)
                &&& if t[n].3 is Err {
                    t.len() == n + 1 && read_outcome(t[n], r)
                } else {
                    calibration_load(t.take(n + 1), t, BME280_ADDRESS_LOW, calibration_of(r))
                }
            }),
            r is Ok ==> r->Ok_0.bus_address() == BME280_ADDRESS_LOW && r->Ok_0.fine() == 0,
    {
        let address = BME280_ADDRESS_LOW;
        let mut buffer = [0u8; 1];
        let command = [REGISTER_ID];
        let ghost n = bus.transactions().len() as int;
        let identified = bus.write_read(address, &command, &mut buffer);
        proof {
            assert(command@ =~= seq![REGISTER_ID]);
            assert(bus.transactions().take(n) =~= old(bus).transactions());
            assert(bus.transactions().take(n + 1) =~= bus.transactions());
        }
        match identified {
            Err(e) => {
                return Err(e);
            },
            Ok(()) => {},
        }
        let ghost middle = bus.transactions();
        let loaded = CompensationData::read(bus, address);
        proof {
            let t = bus.transactions();
            assert(t.take(n) =~= middle.take(n));
            assert(t[n] == middle[n]);
            assert(t.take(n + 1) =~= middle);
        }
        let compensation_data = match loaded {
            Err(e) => {
                return Err(e);
            },
            Ok(c) => c,
        };
        Ok(Bme280 { address, temperature_fine: 0, compensation_data })
    }

    /// Opens the device at the high address: reads the coefficients.
    pub fn address_high<B: I2cWriteRead>(bus: &mut B) -> (r: Result<Bme280, B::Error>)
        ensures
            calibration_load(
                old(bus).transactions(),
                final(bus).transactions(),
                BME280_ADDRESS_HIGH,
                calibration_of(r),
            ),
            r is Ok ==> r->Ok_0.bus_address() == BME280_ADDRESS_HIGH && r->Ok_0.fine() == 0,
    {
        let address = BME280_ADDRESS_HIGH;
        let compensation_data = match CompensationData::read(bus, address) {
            Err(e) => {
                return Err(e);
            },
            Ok(c) => c,
        };
        Ok(Bme280 { address, temperature_fine: 0, compensation_data })
    }

    /// Reads the identification register, uninterpreted.
    pub fn id<B: I2cWriteRead>(&self, bus: &mut B) -> (r: Result<u8, B::Error>)
        ensures
            one_read(old(bus).transactions(), final(bus).transactions(), self.bus_address(), REGISTER_ID, 1),
            read_outcome(final(bus).transactions().last(), r),
            r is Ok ==> r->Ok_0 == final(bus).transactions().last().2[0],
    {
        let mut buffer = [0u8; 1];
        let command = [REGISTER_ID];
        let o = bus.write_read(self.address, &command, &mut buffer);
        proof {
            assert(command@ =~= seq![REGISTER_ID]);
            assert(bus.transactions().drop_last() =~= old(bus).transactions());
        }
        match o {
            Err(e) => Err(e),
            Ok(()) => Ok(buffer[0]),
        }
    }

    /// Starts the device's power-on sequence. The caller waits for it to
    /// finish before the next operation.
    pub fn reset<B: I2cWrite>(&self, bus: &mut B) -> (r: Result<(), B::Error>)
        ensures
            final(bus).writes() == old(bus).writes().push(
                (self.bus_address(), seq![REGISTER_RESET, BME280_RESET_VALUE], r),
            ),
    {
        let command = [REGISTER_RESET, BME280_RESET_VALUE];
        let r = bus.write(self.address, &command);
        proof {
            assert(command@ =~= seq![REGISTER_RESET, BME280_RESET_VALUE]);
        }
        r
    }

    /// Reads and decodes the status register.
    pub fn status<B: I2cWriteRead>(&self, bus: &mut B) -> (r: Result<BmeStatus, B::Error>)
        ensures
            one_read(
                old(bus).transactions(),
                final(bus).transactions(),
                self.bus_address(),
                REGISTER_STATUS,
                1,
            ),
            read_outcome(final(bus).transactions().last(), r),
            r is Ok ==> ({
                let byte = final(bus).transactions().last().2[0];
                &&& r->Ok_0.is_measuring() == (byte & 0b0000_1000 == 0)
                &&& r->Ok_0.is_im_update() == (byte & 0b0000_0001 == 0)
            }),
    {
        let mut buffer = [0u8; 1];
        let command = [REGISTER_STATUS];
        let o = bus.write_read(self.address, &command, &mut buffer);
        proof {
            assert(command@ =~= seq![REGISTER_STATUS]);
            assert(bus.transactions().drop_last() =~= old(bus).transactions());
        }
        match o {
            Err(e) => Err(e),
            Ok(()) => Ok(BmeStatus::from_register(buffer[0])),
        }
    }

    /// Writes the humidity-control byte, then the measurement-control byte;
    /// the device applies the first only once the second is written.
    pub fn sampling<B: I2cWrite>(
        &self,
        bus: &mut B,
        humidity: HumiditySampling,
        temperatire: TemperatireSampling,
        pressure: PressureSampling,
        mode: SensorMode,
    ) -> (r: Result<(), B::Error>)
        ensures
            ({
                let w = final(bus).writes();
                let n = old(bus).writes().len() as int;
                let control = (32 * temperatire.code() + 4 * pressure.code() + mode.code()) as u8;
                &&& w.len() > n
                &&& w.take(n) == old(bus).writes()
                &&& w[n].0 == self.bus_address()
                &&& w[n].1 == seq![REGISTER_HUMIDITY_CONTROL, humidity.code() as u8]
                &&& if w[n].2 is Err {
                    w.len() == n + 1 && r == w[n].2
                } else {
                    &&& w.len() == n + 2
                    &&& w[n + 1].0 == self.bus_address()
                    &&& w[n + 1].1 == seq![REGISTER_MEASUREMENT_CONTROL, control]
                    &&& r == w[n + 1].2
                }
            }),
    {
        let first = [REGISTER_HUMIDITY_CONTROL, humidity.bits()];
        let ghost n = bus.writes().len() as int;
        let o = bus.write(self.address, &first);
        proof {
            assert(first@ =~= seq![REGISTER_HUMIDITY_CONTROL, humidity.code() as u8]);
            assert(bus.writes().take(n) =~= old(bus).writes());
        }
        if o.is_err() {
            return o;
        }
        let ghost middle = bus.writes();
        let second = [REGISTER_MEASUREMENT_CONTROL, measurement_control(temperatire, pressure, mode)];
        let o2 = bus.write(self.address, &second);
        proof {
            assert(second@ =~= seq![
                REGISTER_MEASUREMENT_CONTROL,
                (32 * temperatire.code() + 4 * pressure.code() + mode.code()) as u8,
            ]);
            assert(bus.writes().take(n) =~= old(bus).writes());
            assert(bus.writes()[n] == middle[n]);
        }
        o2
    }

    /// Compensates three bytes read from the temperature data registers and
    /// carries the new fine temperature. A disabled measurement returns 0
    /// and leaves the fine temperature as it was.
    pub fn temperature_from_bytes(&mut self, raw: [u8; 3]) -> (r: i32)
        ensures
            r == temperature_reading(old(self).calibration(), adc20(raw[0], raw[1], raw[2])),
            final(self).fine() == fine_after(
                old(self).calibration(),
                old(self).fine() as int,
                adc20(raw[0], raw[1], raw[2]),
            ),
            adc20(raw[0], raw[1], raw[2]) == SKIPPED_20 ==> r == 0 && final(self).fine()
                == old(self).fine(),
            final(self).bus_address() == old(self).bus_address(),
            final(self).calibration() == old(self).calibration(),
    {
        proof {
            use_type_invariant(&*self);
        }
        let adc = (raw[0] as u32) * 4096 + (raw[1] as u32) * 16 + (raw[2] as u32) / 16;
        if adc == SKIPPED_20 {
            return 0;
        }
        let fine = self.compensation_data.fine_temperature(adc);
        self.temperature_fine = fine;
        let scaled: i64 = (fine as i64) * 5 + 128;
        proof {
            lemma_shr_i64(scaled);
        }
        (scaled >> 8u32) as i32
    }

    /// Compensates three bytes read from the pressure data registers with
    /// the carried fine temperature. A disabled measurement returns 0.
    pub fn pressure_from_bytes(&self, raw: [u8; 3]) -> (r: u32)
        ensures
            r == pressure_reading(self.calibration(), self.fine(), adc20(raw[0], raw[1], raw[2])),
    {
        let adc = (raw[0] as u32) * 4096 + (raw[1] as u32) * 16 + (raw[2] as u32) / 16;
        if adc == SKIPPED_20 {
            return 0;
        }
        self.compensation_data.pressure(self.temperature_fine, adc)
    }

    /// Compensates two bytes read from the humidity data registers with the
    /// carried fine temperature. A disabled measurement returns 0; any other
    /// result is at most 100 % (102400 in 1/1024 %).
    pub fn humidity_from_bytes(&self, raw: [u8; 2]) -> (r: u32)
        ensures
            r == humidity_reading(self.calibration(), self.fine() as int, adc16(raw[0], raw[1])),
            adc16(raw[0], raw[1]) == SKIPPED_16 ==> r == 0,
            r <= HUMIDITY_CLAMP / 4096,
    {
        proof {
            use_type_invariant(self);
        }
        let adc = (raw[0] as u32) * 256 + raw[1] as u32;
        if adc == SKIPPED_16 {
            return 0;
        }
        self.compensation_data.humidity(self.temperature_fine, adc)
    }

    /// Reads and compensates the temperature, in hundredths of a degree
    /// Celsius, carrying the fine temperature that pressure and humidity
    /// readings use: one read of three bytes at the temperature register. A
    /// bus error is returned unchanged and leaves the handle as it was.
    pub fn temperature<B: I2cWriteRead>(&mut self, bus: &mut B) -> (r: Result<i32, B::Error>)
        ensures
            one_read(
                old(bus).transactions(),
                final(bus).transactions(),
                old(self).bus_address(),
                REGISTER_TEMPERATURE,
                3,
            ),
            read_outcome(final(bus).transactions().last(), r),
            final(self).bus_address() == old(self).bus_address(),
            final(self).calibration() == old(self).calibration(),
            r is Err ==> final(self).fine() == old(self).fine(),
            r is Ok ==> ({
                let b = final(bus).transactions().last().2;
                let adc = adc20(b[0], b[1], b[2]);
                &&& r->Ok_0 == temperature_reading(old(self).calibration(), adc)
                &&& final(self).fine() == fine_after(
                    old(self).calibration(),
                    old(self).fine() as int,
                    adc,
                )
            }),
    {
        let mut buffer = [0u8; 3];
        let command = [REGISTER_TEMPERATURE];
        let o = bus.write_read(self.address, &command, &mut buffer);
        proof {
            assert(command@ =~= seq![REGISTER_TEMPERATURE]);
            assert(bus.transactions().drop_last() =~= old(bus).transactions());
        }
        match o {
            Err(e) => Err(e),
            Ok(()) => Ok(self.temperature_from_bytes(buffer)),
        }
    }

    /// Reads and compensates the pressure, in 1/256 Pa, with the fine
    /// temperature of the last temperature reading: one read of three bytes
    /// at the pressure register.
    pub fn pressure<B: I2cWriteRead>(&self, bus: &mut B) -> (r: Result<u32, B::Error>)
        ensures
            one_read(
                old(bus).transactions(),
                final(bus).transactions(),
                self.bus_address(),
                REGISTER_PRESSURE,
                3,
            ),
            read_outcome(final(bus).transactions().last(), r),
            r is Ok ==> ({
                let b = final(bus).transactions().last().2;
                r->Ok_0 == pressure_reading(self.calibration(), self.fine(), adc20(b[0], b[1], b[2]))
            }),
    {
        let mut buffer = [0u8; 3];
        let command = [REGISTER_PRESSURE];
        let o = bus.write_read(self.address, &command, &mut buffer);
        proof {
            assert(command@ =~= seq![REGISTER_PRESSURE]);
            assert(bus.transactions().drop_last() =~= old(bus).transactions());
        }
        match o {
            Err(e) => Err(e),
            Ok(()) => Ok(self.pressure_from_bytes(buffer)),
        }
    }

    /// Reads and compensates the relative humidity, in 1/1024 %, with the
    /// fine temperature of the last temperature reading: one read of two
    /// bytes at the humidity register.
    pub fn humidity<B: I2cWriteRead>(&self, bus: &mut B) -> (r: Result<u32, B::Error>)
        ensures
            one_read(
                old(bus).transactions(),
                final(bus).transactions(),
                self.bus_address(),
                REGISTER_HUMIDITY,
                2,
            ),
            read_outcome(final(bus).transactions().last(), r),
            r is Ok ==> ({
                let b = final(bus).transactions().last().2;
                r->Ok_0 == humidity_reading(self.calibration(), self.fine() as int, adc16(b[0], b[1]))
            }),
    {
        let mut buffer = [0u8; 2];
        let command = [REGISTER_HUMIDITY];
        let o = bus.write_read(self.address, &command, &mut buffer);
        proof {
            assert(command@ =~= seq![REGISTER_HUMIDITY]);
            assert(bus.transactions().drop_last() =~= old(bus).transactions());
        }
        match o {
            Err(e) => Err(e),
            Ok(()) => Ok(self.humidity_from_bytes(buffer)),
        }
    }
}

} // verus!
