//! Driver for a combined temperature, pressure and humidity sensor on a
//! two-wire, register-addressed bus, with the fixed-point compensation
//! algorithms and unit conversions proved against their specifications.
mod arith;
mod bus;
mod calibration;
mod compensation;
mod device;
mod humidity;
mod pressure;
mod settings;
mod temperature;

pub use crate::bus::I2cWrite;
pub use crate::bus::I2cWriteRead;
pub use crate::bus::TransactionLog;
pub use crate::bus::WriteLog;
pub use crate::calibration::CompensationData;
pub use crate::device::Bme280;
pub use crate::device::BmeStatus;
pub use crate::humidity::HumidityExt;
pub use crate::pressure::PressureExt;
pub use crate::settings::HumiditySampling;
pub use crate::settings::PressureSampling;
pub use crate::settings::SensorMode;
pub use crate::settings::measurement_control;
pub use crate::settings::TemperatireSampling;
pub use crate::temperature::TemperatureExt;
pub use crate::temperature::lemma_celsius_round_trip;
