//! Splitting a pressure in 1/256 Pa into whole units and a decimal fraction,
//! in pascals, hectopascals and millimetres of mercury.
use vstd::prelude::*;

verus! {

/// Conversions of a pressure in 1/256 Pa.
pub trait PressureExt {
    /// Whole pascals and hundredths.
    #[allow(non_snake_case)]
    fn Pa(self) -> (u32, u8);

    /// Whole hectopascals and thousandths.
    #[allow(non_snake_case)]
    fn hPa(self) -> (u16, u16);

    /// Whole millimetres of mercury and tenths.
    #[allow(non_snake_case)]
    fn mmHg(self) -> (u16, u8);
}

/// 1/256 Pa in one pascal.
pub const PASCAL: u32 = 256;

/// 1/256 Pa in one hectopascal.
pub const HECTOPASCAL: u32 = 25_600;

/// 1/256 Pa in one millimetre of mercury: 34130 / 256 = 133.32 Pa, an
/// approximation of 133.322 Pa kept as it is for compatibility.
pub const MILLIMETRE_MERCURY: u32 = 34130;

/// Whole units of `scale` in `p`, and the remainder in `digits` parts of a
/// unit, rounded down.
pub open spec fn scaled_parts(p: int, scale: int, digits: int) -> (int, int) {
    (p / scale, (digits * (p % scale)) / scale)
}

impl PressureExt for u32 {
    fn Pa(self) -> (r: (u32, u8))
        ensures
            r.0 == scaled_parts(self as int, PASCAL as int, 100).0,
            r.1 == scaled_parts(self as int, PASCAL as int, 100).1,
    {
        let integer = self / PASCAL;
        let fractional = (100 * (self % PASCAL)) / PASCAL;
        (integer, fractional as u8)
    }

    fn hPa(self) -> (r: (u16, u16))
        ensures
            r.0 == scaled_parts(self as int, HECTOPASCAL as int, 1000).0 as u16,
            r.1 == scaled_parts(self as int, HECTOPASCAL as int, 1000).1,
    {
        let integer = self / HECTOPASCAL;
        let fractional = (1000 * (self % HECTOPASCAL)) / HECTOPASCAL;
        (integer as u16, fractional as u16)
    }

    fn mmHg(self) -> (r: (u16, u8))
        ensures
            r.0 == scaled_parts(self as int, MILLIMETRE_MERCURY as int, 10).0 as u16,
            r.1 == scaled_parts(self as int, MILLIMETRE_MERCURY as int, 10).1,
    {
        let integer = self / MILLIMETRE_MERCURY;
        let fractional = (10 * (self % MILLIMETRE_MERCURY)) / MILLIMETRE_MERCURY;
        (integer as u16, fractional as u8)
    }
}

} // verus!
