//! Splitting a relative humidity in 1/1024 % into whole percent and
//! thousandths.
use vstd::prelude::*;

use crate::pressure::scaled_parts;

verus! {

/// Conversion of a relative humidity in 1/1024 %.
pub trait HumidityExt {
    /// Whole percent and thousandths.
    fn percent(self) -> (u8, u16);
}

/// 1/1024 % in one percent.
pub const FACTOR: u32 = 1024;

impl HumidityExt for u32 {
    fn percent(self) -> (r: (u8, u16))
        ensures
            r.0 == scaled_parts(self as int, FACTOR as int, 1000).0 as u8,
            r.1 == scaled_parts(self as int, FACTOR as int, 1000).1,
    {
        let integer = self / FACTOR;
        let fractional = (1_000 * (self % FACTOR)) / FACTOR;
        (integer as u8, fractional as u16)
    }
}

} // verus!
