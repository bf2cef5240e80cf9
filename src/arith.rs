//! Facts about arithmetic right shifts used by the fixed-point algorithms:
//! on a two's-complement integer, a right shift by `k` is floor division by
//! `2^k`.
use vstd::prelude::*;

verus! {

pub proof fn lemma_shr_i64(x: i64)
    ensures
        x >> 8u32 == x / 256,
        x >> 11u32 == x / 2048,
        x >> 12u32 == x / 4096,
        x >> 14u32 == x / 16384,
{
    assert(x >> 8u32 == x / 256) by (bit_vector);
    assert(x >> 11u32 == x / 2048) by (bit_vector);
    assert(x >> 12u32 == x / 4096) by (bit_vector);
    assert(x >> 14u32 == x / 16384) by (bit_vector);
}

pub proof fn lemma_shr_i128(x: i128)
    ensures
        x >> 4u32 == x / 16,
        x >> 7u32 == x / 128,
        x >> 10u32 == x / 1024,
        x >> 11u32 == x / 2048,
        x >> 12u32 == x / 4096,
        x >> 14u32 == x / 16384,
        x >> 15u32 == x / 32768,
{
    assert(x >> 4u32 == x / 16) by (bit_vector);
    assert(x >> 7u32 == x / 128) by (bit_vector);
    assert(x >> 10u32 == x / 1024) by (bit_vector);
    assert(x >> 11u32 == x / 2048) by (bit_vector);
    assert(x >> 12u32 == x / 4096) by (bit_vector);
    assert(x >> 14u32 == x / 16384) by (bit_vector);
    assert(x >> 15u32 == x / 32768) by (bit_vector);
}

/// Bounds a product from bounds on its factors.
pub proof fn lemma_mul_bound(a: int, b: int, ba: int, bb: int)
    requires
        -ba <= a <= ba,
        -bb <= b <= bb,
    ensures
        -(ba * bb) <= a * b <= ba * bb,
{
    assert(-(ba * bb) <= a * b <= ba * bb) by (nonlinear_arith)
        requires
            -ba <= a <= ba,
            -bb <= b <= bb,
    ;
}

/// Bounds a floor quotient by a positive divisor from a bound on the dividend.
pub proof fn lemma_div_bound(a: int, d: int, ba: int, bq: int)
    requires
        d > 0,
        -ba <= a <= ba,
        ba <= bq * d,
    ensures
        -bq <= a / d <= bq,
{
    assert(-bq <= a / d <= bq) by (nonlinear_arith)
        requires
            d > 0,
            -ba <= a <= ba,
            ba <= bq * d,
    ;
}

} // verus!
