//! Splitting a temperature in hundredths of a degree Celsius into whole
//! degrees and hundredths, in Celsius and in Fahrenheit.
use vstd::prelude::*;

verus! {

/// Conversions of a temperature in hundredths of a degree Celsius.
pub trait TemperatureExt {
    /// Whole degrees Celsius (truncated towards zero) and hundredths.
    fn c(self) -> (i8, u8);

    /// Whole degrees Fahrenheit (truncated towards zero) and hundredths.
    fn f(self) -> (i8, u8);
}

/// Hundredths in one degree.
const HUNDREDTHS: i64 = 100;

pub open spec fn abs(x: int) -> int {
    if x < 0 {
        -x
    } else {
        x
    }
}

/// Division truncated towards zero, by a positive divisor.
pub open spec fn trunc_div(a: int, d: int) -> int {
    if a < 0 {
        -((-a) / d)
    } else {
        a / d
    }
}

/// A value in hundredths as whole units, truncated towards zero, and the
/// hundredths of its magnitude. The whole part is kept in eight bits, as
/// an `i8` cast keeps it.
pub open spec fn hundredths_parts(x: int) -> (i8, u8) {
    (trunc_div(x, 100) as i8, (abs(x) % 100) as u8)
}

/// Hundredths of a degree Celsius as hundredths of a degree Fahrenheit:
/// `c * 9 / 5 + 3200`, with division truncated towards zero.
pub open spec fn fahrenheit_of(c: int) -> int {
    trunc_div(c * 9, 5) + 3200
}

/// The value that whole units and hundredths stand for, the hundredths
/// taking the sign of the whole part.
pub open spec fn rejoin(parts: (i8, u8)) -> int {
    if parts.0 < 0 {
        parts.0 * 100 - parts.1
    } else {
        parts.0 * 100 + parts.1
    }
}

fn split_hundredths(x: i64) -> (r: (i8, u8))
    requires
        -0x1_0000_0000 <= x <= 0x1_0000_0000,
    ensures
        r == hundredths_parts(x as int),
{
    let magnitude: i64 = if x < 0 {
        -x
    } else {
        x
    };
    let integer: i64 = if x < 0 {
        -(magnitude / HUNDREDTHS)
    } else {
        magnitude / HUNDREDTHS
    };
    let fractional: i64 = (100 * (magnitude % HUNDREDTHS)) / HUNDREDTHS;
    (integer as i8, fractional as u8)
}

impl TemperatureExt for i32 {
    fn c(self) -> (r: (i8, u8))
        ensures
            r == hundredths_parts(self as int),
    {
        split_hundredths(self as i64)
    }

    fn f(self) -> (r: (i8, u8))
        ensures
            r == hundredths_parts(fahrenheit_of(self as int)),
    {
        let scaled: i64 = (self as i64) * 9;
        let fifths: i64 = if scaled < 0 {
            -((-scaled) / 5)
        } else {
            scaled / 5
        };
        split_hundredths(fifths + 3200)
    }
}

/// Whole degrees and hundredths give back the temperature they were split
/// from, wherever the whole degrees fit in eight bits and the sign is not
/// lost: between -0.99 and -0.01 degrees the whole part is 0 and cannot
/// carry the sign.
pub proof fn lemma_celsius_round_trip(t: i32)
    requires
        -12900 < t < 12800,
        !(-100 < t < 0),
    ensures
        rejoin(hundredths_parts(t as int)) == t,
{
    let q = trunc_div(t as int, 100);
    assert(-128 <= q <= 127);
    assert((abs(t as int) % 100) as u8 == abs(t as int) % 100);
    assert(q as i8 == q);
}

} // verus!
