//! Oversampling and power-mode choices, and their encoding into the two
//! control-register bytes.
use vstd::prelude::*;

verus! {

/// Humidity oversampling.
#[derive(Debug, Clone, Copy, PartialEq, Eq, Structural)]
pub enum HumiditySampling {
    Skipped,
    Sampling1,
    Sampling2,
    Sampling4,
    Sampling8,
    Sampling16,
}

/// Temperature oversampling.
#[derive(Debug, Clone, Copy, PartialEq, Eq, Structural)]
pub enum TemperatireSampling {
    Skipped,
    Sampling1,
    Sampling2,
    Sampling4,
    Sampling8,
    Sampling16,
}

/// Pressure oversampling.
#[derive(Debug, Clone, Copy, PartialEq, Eq, Structural)]
pub enum PressureSampling {
    Skipped,
    Sampling1,
    Sampling2,
    Sampling4,
    Sampling8,
    Sampling16,
}

/// Power mode.
#[derive(Debug, Clone, Copy, PartialEq, Eq, Structural)]
pub enum SensorMode {
    Sleep,
    Foeced,
    Normal,
}

impl HumiditySampling {
    /// The 3-bit oversampling code: 0 skips the measurement, 1 to 5 take
    /// 1, 2, 4, 8 or 16 samples.
    pub open spec fn code(self) -> int {
        match self {
            HumiditySampling::Skipped => 0,
            HumiditySampling::Sampling1 => 1,
            HumiditySampling::Sampling2 => 2,
            HumiditySampling::Sampling4 => 3,
            HumiditySampling::Sampling8 => 4,
            HumiditySampling::Sampling16 => 5,
        }
    }

    /// The humidity-control byte: the code in bits [2:0].
    pub fn bits(self) -> (r: u8)
        ensures
            r == self.code(),
    {
        match self {
            HumiditySampling::Skipped => 0b000,
            HumiditySampling::Sampling1 => 0b001,
            HumiditySampling::Sampling2 => 0b010,
            HumiditySampling::Sampling4 => 0b011,
            HumiditySampling::Sampling8 => 0b100,
            HumiditySampling::Sampling16 => 0b101,
        }
    }
}

impl TemperatireSampling {
    /// The 3-bit oversampling code, as for humidity.
    pub open spec fn code(self) -> int {
        match self {
            TemperatireSampling::Skipped => 0,
            TemperatireSampling::Sampling1 => 1,
            TemperatireSampling::Sampling2 => 2,
            TemperatireSampling::Sampling4 => 3,
            TemperatireSampling::Sampling8 => 4,
            TemperatireSampling::Sampling16 => 5,
        }
    }

    /// The code in bits [7:5] of the measurement-control byte.
    pub fn bits(self) -> (r: u8)
        ensures
            r == 32 * self.code(),
    {
        match self {
            TemperatireSampling::Skipped => 0b000_000_00,
            TemperatireSampling::Sampling1 => 0b001_000_00,
            TemperatireSampling::Sampling2 => 0b010_000_00,
            TemperatireSampling::Sampling4 => 0b011_000_00,
            TemperatireSampling::Sampling8 => 0b100_000_00,
            TemperatireSampling::Sampling16 => 0b101_000_00,
        }
    }
}

impl PressureSampling {
    /// The 3-bit oversampling code, as for humidity.
    pub open spec fn code(self) -> int {
        match self {
            PressureSampling::Skipped => 0,
            PressureSampling::Sampling1 => 1,
            PressureSampling::Sampling2 => 2,
            PressureSampling::Sampling4 => 3,
            PressureSampling::Sampling8 => 4,
            PressureSampling::Sampling16 => 5,
        }
    }

    /// The code in bits [4:2] of the measurement-control byte.
    pub fn bits(self) -> (r: u8)
        ensures
            r == 4 * self.code(),
    {
        match self {
            PressureSampling::Skipped => 0b000_000_00,
            PressureSampling::Sampling1 => 0b000_001_00,
            PressureSampling::Sampling2 => 0b000_010_00,
            PressureSampling::Sampling4 => 0b000_011_00,
            PressureSampling::Sampling8 => 0b000_100_00,
            PressureSampling::Sampling16 => 0b000_101_00,
        }
    }
}

impl SensorMode {
    /// The 2-bit mode code: sleep 0, forced 1, normal 3.
    pub open spec fn code(self) -> int {
        match self {
            SensorMode::Sleep => 0,
            SensorMode::Foeced => 1,
            SensorMode::Normal => 3,
        }
    }

    /// The code in bits [1:0] of the measurement-control byte.
    pub fn bits(self) -> (r: u8)
        ensures
            r == self.code(),
    {
        match self {
            SensorMode::Sleep => 0b00,
            SensorMode::Foeced => 0b01,
            SensorMode::Normal => 0b11,
        }
    }
}

/// The measurement-control byte: temperature oversampling in bits [7:5],
/// pressure oversampling in bits [4:2], power mode in bits [1:0].
pub fn measurement_control(
    temperature: TemperatireSampling,
    pressure: PressureSampling,
    mode: SensorMode,
) -> (r: u8)
    ensures
        r == 32 * temperature.code() + 4 * pressure.code() + mode.code(),
{
    let t = temperature.bits();
    let p = pressure.bits();
    let m = mode.bits();
    let tc = t / 32;
    let pc = p / 4;
    assert(t | p | m == 32 * tc + 4 * pc + m) by (bit_vector)
        requires
            t == 32 * tc,
            p == 4 * pc,
            tc < 8,
            pc < 8,
            m < 4,
    ;
    t | p | m
}

} // verus!
