//! The fixed-point numeric layer: 32-bit signed words interpreted as Q16.16
//! rationals, with scaling multiply and divide.

use vstd::prelude::*;

verus! {

/// The fixed-point representation of one: 2^16.
pub const FP_ONE: i32 = 0x1_0000;

/// What a Q16.16 multiply yields: the 64-bit product, arithmetically shifted
/// right by the fractional width, narrowed to 32 bits.
pub open spec fn fp_mul_spec(a: i32, b: i32) -> i32 {
    ((((a as int) * (b as int)) as i64) >> 16) as i32
}

/// The integer part of a Q16.16 word always fits in 16 signed bits.
pub proof fn lemma_int_part_bounds(w: i32)
    ensures
        -0x8000 <= w >> 16u32 <= 0x7FFF,
{
    assert(-0x8000 <= (w >> 16u32) && (w >> 16u32) <= 0x7FFF) by (bit_vector);
}

/// Integer division truncating toward zero, as the machine's division
/// instruction computes it.
pub open spec fn trunc_div(x: int, d: int) -> int
    recommends
        d != 0,
{
    if x == 0 {
        0
    } else if x > 0 && d > 0 {
        x / d
    } else if x < 0 && d < 0 {
        (x * -1) / (d * -1)
    } else if x < 0 {
        ((x * -1) / d) * -1
    } else {
        (x / (d * -1)) * -1
    }
}

/// What a Q16.16 divide yields: the dividend widened and scaled up by 2^16,
/// divided by the divisor (truncating toward zero), narrowed to 32 bits.
/// Dividing by zero yields 0 by deliberate policy.
pub open spec fn fp_div_spec(a: i32, b: i32) -> i32 {
    if b == 0 {
        0
    } else {
        vstd::wrapping::i32_specs::signed_crop(trunc_div((a as int) * 0x1_0000, b as int))
    }
}

/// Divides two Q16.16 words, widening to 64 bits before the scaling shift.
/// A zero divisor is survivable and yields the sentinel 0.
pub fn fp_div(a: i32, b: i32) -> (r: i32)
    ensures
        r == fp_div_spec(a, b),
{
    if b == 0 {
        return 0;
    }
    let wa: i64 = (a as i64) << 16u32;
    proof {
        assert((a as i64) << 16u32 == (a as int) * 0x1_0000) by (bit_vector);
    }
    let nb: i64 = if b < 0 {
        -(b as i64)
    } else {
        b as i64
    };
    let q0: i64 = wa / nb;
    let q: i64 = if b < 0 {
        -q0
    } else {
        q0
    };
    proof {
        assert(q == trunc_div(wa as int, b as int));
        assert((q as i32) == vstd::wrapping::i32_specs::signed_crop(q as int))
            by (bit_vector);
    }
    #[verifier::truncate] (q as i32)
}

/// Multiplies two Q16.16 words, widening to 64 bits so the scaling shift
/// keeps every intermediate bit.
pub fn fp_mul(a: i32, b: i32) -> (r: i32)
    ensures
        r == fp_mul_spec(a, b),
{
    proof {
        assert(-0x4000_0000_0000_0000 <= (a as int) * (b as int)
            <= 0x4000_0000_0000_0000) by (nonlinear_arith)
            requires
                -0x8000_0000 <= a as int <= 0x7FFF_FFFF,
                -0x8000_0000 <= b as int <= 0x7FFF_FFFF;
    }
    let p: i64 = (a as i64) * (b as i64);
    #[verifier::truncate] ((p >> 16) as i32)
}

/// Dividing any word by zero yields the sentinel 0.
pub proof fn lemma_fp_div_by_zero(a: i32)
    ensures
        fp_div_spec(a, 0) == 0,
{
}

/// Multiplying zero by any word yields zero.
pub proof fn lemma_fp_mul_zero(b: i32)
    ensures
        fp_mul_spec(0, b) == 0,
{
    assert((((0int) as i64) >> 16u32) as i32 == 0) by (bit_vector);
}

/// Multiplying the fixed-point one by any word yields the word back
/// exactly: the widening multiply never loses bits.
pub proof fn lemma_fp_mul_one(b: i32)
    ensures
        fp_mul_spec(FP_ONE, b) == b,
{
    assert((((0x1_0000 * (b as int)) as i64) >> 16u32) as i32 == b) by (bit_vector);
}

} // verus!
