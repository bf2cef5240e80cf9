//! The three compensation algorithms: they turn raw ADC readings into
//! temperature, pressure and humidity using the device's coefficients.
//!
//! In the specifications below an arithmetic right shift by `k` is written
//! as floor division by `2^k`, and a left shift as multiplication.
use vstd::prelude::*;

use crate::arith::lemma_div_bound;
use crate::arith::lemma_mul_bound;
use crate::arith::lemma_shr_i128;
use crate::arith::lemma_shr_i64;
use crate::calibration::CompensationData;

verus! {

/// No fine temperature computed from a 20-bit reading lies further from
/// zero than this.
pub const FINE_BOUND: i32 = 4194304;

/// The upper end of the humidity clamp, before the final shift by 12.
pub const HUMIDITY_CLAMP: i32 = 419430400;

/// The 20-bit reading assembled from three data registers:
/// `msb << 12 | lsb << 4 | xlsb >> 4`.
pub open spec fn adc20(msb: u8, lsb: u8, xlsb: u8) -> int {
    4096 * msb + 16 * lsb + xlsb / 16
}

/// The 16-bit humidity reading assembled from two data registers.
pub open spec fn adc16(msb: u8, lsb: u8) -> int {
    256 * msb + lsb
}

pub open spec fn temperature_var1(c: CompensationData, adc: int) -> int {
    ((adc / 8 - 2 * c.dig_t1) * c.dig_t2) / 2048
}

pub open spec fn temperature_var2(c: CompensationData, adc: int) -> int {
    let d = adc / 16 - c.dig_t1;
    (((d * d) / 4096) * c.dig_t3) / 16384
}

/// The fine temperature: the carried intermediate that the pressure and
/// humidity algorithms depend on.
pub open spec fn fine_temperature_of(c: CompensationData, adc: int) -> int {
    temperature_var1(c, adc) + temperature_var2(c, adc)
}

/// Temperature in hundredths of a degree Celsius from a fine temperature.
pub open spec fn temperature_of_fine(fine: int) -> int {
    (fine * 5 + 128) / 256
}

/// The 64-bit fixed-point pressure computation, in two's-complement
/// arithmetic, yielding 1/256 Pa. A zero denominator yields 0.
///
/// The wrap-around at 64 bits is intended. The datasheet fixes these
/// intermediates at 64 bits, and no fixed width holds them exactly for every
/// coefficient set: a denominator near zero gives a quotient above 2^70,
/// which is then squared. Wherever no intermediate leaves the 64-bit range,
/// this is the datasheet formula in exact integers.
pub open spec fn pressure_of(c: CompensationData, fine: i32, adc: i64) -> u32 {
    let p1 = c.dig_p1 as i64;
    let p2 = c.dig_p2 as i64;
    let p3 = c.dig_p3 as i64;
    let p4 = c.dig_p4 as i64;
    let p5 = c.dig_p5 as i64;
    let p6 = c.dig_p6 as i64;
    let p7 = c.dig_p7 as i64;
    let p8 = c.dig_p8 as i64;
    let p9 = c.dig_p9 as i64;
    let var1 = (fine as i64).wrapping_sub(128000);
    let var2 = var1.wrapping_mul(var1).wrapping_mul(p6);
    let var2 = var2.wrapping_add(var1.wrapping_mul(p5).wrapping_shl(17));
    let var2 = var2.wrapping_add(p4.wrapping_shl(35));
    let var1 = (var1.wrapping_mul(var1).wrapping_mul(p3) >> 8u32).wrapping_add(
        var1.wrapping_mul(p2).wrapping_shl(12),
    );
    let var1 = (1i64.wrapping_shl(47)).wrapping_add(var1).wrapping_mul(p1) >> 33u32;
    if var1 == 0 {
        0
    } else {
        let p = 1048576i64.wrapping_sub(adc);
        let n = p.wrapping_shl(31).wrapping_sub(var2).wrapping_mul(3125);
        let p = match n.checked_div(var1) {
            Some(q) => q,
            None => i64::MIN,
        };
        let var1 = p9.wrapping_mul(p >> 13u32).wrapping_mul(p >> 13u32) >> 25u32;
        let var2 = p8.wrapping_mul(p) >> 19u32;
        let p = (p.wrapping_add(var1).wrapping_add(var2) >> 8u32).wrapping_add(p7.wrapping_shl(4));
        p as u32
    }
}

/// The humidity intermediate before it is clamped.
pub open spec fn humidity_unclamped(c: CompensationData, fine: int, adc: int) -> int {
    let v = fine - 76800;
    let x = (adc * 16384 - c.dig_h4 * 1048576 - c.dig_h5 * v + 16384) / 32768;
    let y = ((((((v * c.dig_h6) / 1024) * ((v * c.dig_h3) / 2048 + 32768)) / 1024 + 2097152)
        * c.dig_h2 + 8192) / 16384);
    let w = x * y;
    w - ((((w / 32768) * (w / 32768)) / 128) * c.dig_h1) / 16
}

pub open spec fn clamp(x: int, lo: int, hi: int) -> int {
    if x < lo {
        lo
    } else if x > hi {
        hi
    } else {
        x
    }
}

/// The humidity intermediate clamped to `[0, HUMIDITY_CLAMP]`.
pub open spec fn humidity_clamped(c: CompensationData, fine: int, adc: int) -> int {
    clamp(humidity_unclamped(c, fine, adc), 0, HUMIDITY_CLAMP as int)
}

/// Relative humidity in 1/1024 %.
pub open spec fn humidity_of(c: CompensationData, fine: int, adc: int) -> int {
    humidity_clamped(c, fine, adc) / 4096
}

impl CompensationData {
    /// The fine temperature of a 20-bit reading. Intermediate products are
    /// held in 64 bits, so the result is exact for every coefficient set.
    pub fn fine_temperature(&self, adc: u32) -> (r: i32)
        requires
            adc < 0x100000,
        ensures
            r == fine_temperature_of(*self, adc as int),
            -FINE_BOUND <= r <= FINE_BOUND,
    {
        let t1 = self.dig_t1 as i64;
        let t2 = self.dig_t2 as i64;
        let t3 = self.dig_t3 as i64;

        let d1: i64 = (adc / 8) as i64 - 2 * t1;
        proof {
            lemma_mul_bound(d1 as int, t2 as int, 131072, 32768);
        }
        let p1: i64 = d1 * t2;
        proof {
            lemma_shr_i64(p1);
            lemma_div_bound(p1 as int, 2048, 4294967296, 2097152);
        }
        let var1: i64 = p1 >> 11u32;

        let d2: i64 = (adc / 16) as i64 - t1;
        proof {
            lemma_mul_bound(d2 as int, d2 as int, 65536, 65536);
        }
        let sq: i64 = d2 * d2;
        proof {
            lemma_shr_i64(sq);
            lemma_div_bound(sq as int, 4096, 4294967296, 1048576);
        }
        let s: i64 = sq >> 12u32;
        proof {
            lemma_mul_bound(s as int, t3 as int, 1048576, 32768);
        }
        let q: i64 = s * t3;
        proof {
            lemma_shr_i64(q);
            lemma_div_bound(q as int, 16384, 34359738368, 2097152);
        }
        let var2: i64 = q >> 14u32;

        (var1 + var2) as i32
    }

    /// Compensated pressure in 1/256 Pa, by the 64-bit computation of
    /// [`pressure_of`]. Returns 0 where its denominator is zero.
    pub fn pressure(&self, fine: i32, adc: u32) -> (r: u32)
        requires
            adc < 0x100000,
        ensures
            r == pressure_of(*self, fine, adc as i64),
    {
        let p1 = self.dig_p1 as i64;
        let p2 = self.dig_p2 as i64;
        let p3 = self.dig_p3 as i64;
        let p4 = self.dig_p4 as i64;
        let p5 = self.dig_p5 as i64;
        let p6 = self.dig_p6 as i64;

        let var1 = (fine as i64).wrapping_sub(128000);
        let var2 = var1.wrapping_mul(var1).wrapping_mul(p6);
        let var2 = var2.wrapping_add(var1.wrapping_mul(p5).wrapping_shl(17));
        let var2 = var2.wrapping_add(p4.wrapping_shl(35));
        let var1 = (var1.wrapping_mul(var1).wrapping_mul(p3) >> 8u32).wrapping_add(
            var1.wrapping_mul(p2).wrapping_shl(12),
        );
        let var1 = (1i64.wrapping_shl(47)).wrapping_add(var1).wrapping_mul(p1) >> 33u32;

        if var1 == 0 {
            return 0;  // a zero denominator: no division
        }
        let p7 = self.dig_p7 as i64;
        let p8 = self.dig_p8 as i64;
        let p9 = self.dig_p9 as i64;

        let p = 1048576i64.wrapping_sub(adc as i64);
        let n = p.wrapping_shl(31).wrapping_sub(var2).wrapping_mul(3125);
        let p = match n.checked_div(var1) {
            Some(q) => q,
            None => i64::MIN,
        };
        let var1 = p9.wrapping_mul(p >> 13u32).wrapping_mul(p >> 13u32) >> 25u32;
        let var2 = p8.wrapping_mul(p) >> 19u32;
        let p = (p.wrapping_add(var1).wrapping_add(var2) >> 8u32).wrapping_add(p7.wrapping_shl(4));
        p as u32
    }
    /// Relative humidity in 1/1024 %, from a 16-bit reading and a fine
    /// temperature. Intermediate products are held in 128 bits, so the
    /// unclamped intermediate is exact; it is clamped to
    /// `[0, HUMIDITY_CLAMP]` before the final shift by 12. The packed
    /// coefficients hold twelve bits, as in every set read from a device,
    /// and the fine temperature is one that a temperature reading yields.
    pub fn humidity(&self, fine: i32, adc: u32) -> (r: u32)
        requires
            self.wf(),
            -FINE_BOUND <= fine <= FINE_BOUND,
            adc < 0x10000,
        ensures
            r == humidity_of(*self, fine as int, adc as int),
            0 <= humidity_clamped(*self, fine as int, adc as int) <= HUMIDITY_CLAMP,
            r <= HUMIDITY_CLAMP / 4096,
    {
        let h1 = self.dig_h1 as i128;
        let h2 = self.dig_h2 as i128;
        let h3 = self.dig_h3 as i128;
        let h4 = self.dig_h4 as i128;
        let h5 = self.dig_h5 as i128;
        let h6 = self.dig_h6 as i128;
        let adc = adc as i128;

        let v: i128 = fine as i128 - 76800;
        proof {
            lemma_mul_bound(h5 as int, v as int, 4096, 8388608);
        }
        let a: i128 = adc * 16384 - h4 * 1048576 - h5 * v + 16384;
        proof {
            lemma_shr_i128(a);
            lemma_div_bound(a as int, 32768, 68719476736, 2097152);
        }
        let x: i128 = a >> 15u32;

        proof {
            lemma_mul_bound(v as int, h6 as int, 8388608, 128);
            lemma_mul_bound(v as int, h3 as int, 8388608, 256);
        }
        let b1: i128 = v * h6;
        let b2: i128 = v * h3;
        proof {
            lemma_shr_i128(b1);
            lemma_shr_i128(b2);
            lemma_div_bound(b1 as int, 1024, 1073741824, 1048576);
            lemma_div_bound(b2 as int, 2048, 2147483648, 1048576);
        }
        let c1: i128 = b1 >> 10u32;
        let c2: i128 = (b2 >> 11u32) + 32768;
        proof {
            lemma_mul_bound(c1 as int, c2 as int, 1048576, 2097152);
        }
        let c: i128 = c1 * c2;
        proof {
            lemma_shr_i128(c);
            lemma_div_bound(c as int, 1024, 2199023255552, 2147483648);
        }
        let d: i128 = (c >> 10u32) + 2097152;
        proof {
            lemma_mul_bound(d as int, h2 as int, 4294967296, 32768);
        }
        let e: i128 = d * h2 + 8192;
        proof {
            lemma_shr_i128(e);
            lemma_div_bound(e as int, 16384, 281474976710656, 17179869184);
        }
        let y: i128 = e >> 14u32;
        proof {
            lemma_mul_bound(x as int, y as int, 2097152, 17179869184);
        }
        let w: i128 = x * y;
        proof {
            lemma_shr_i128(w);
            lemma_div_bound(w as int, 32768, 36028797018963968, 1099511627776);
        }
        let ws: i128 = w >> 15u32;
        proof {
            lemma_mul_bound(ws as int, ws as int, 1099511627776, 1099511627776);
        }
        let sq: i128 = ws * ws;
        proof {
            lemma_shr_i128(sq);
            lemma_div_bound(sq as int, 128, 1208925819614629174706176, 9444732965739290427392);
        }
        let s: i128 = sq >> 7u32;
        proof {
            lemma_mul_bound(s as int, h1 as int, 9444732965739290427392, 256);
        }
        let t: i128 = s * h1;
        proof {
            lemma_shr_i128(t);
        }
        let u: i128 = w - (t >> 4u32);

        let clamped: i128 = if u < 0 {
            0
        } else if u > HUMIDITY_CLAMP as i128 {
            HUMIDITY_CLAMP as i128
        } else {
            u
        };
        proof {
            lemma_shr_i128(clamped);
        }
        (clamped >> 12u32) as u32
    }
}

} // verus!
