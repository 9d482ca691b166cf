//! Actuator mapping: from a logical throttle percentage to the hardware
//! duty-cycle register.
//!
//! The commanded position travels as the IEEE 754 bit pattern of a
//! single-precision percentage.  The register value is the percentage scaled
//! to the register's full range of `[0, 0x8000]` and rounded to the nearest
//! integer: `round(percent * 0x8000 / 100)`.  No clamping of the percentage
//! is performed; out-of-range percentages give out-of-range register values,
//! saturated only at the 16-bit register width itself.  Negative inputs
//! (including negative zero) and NaN map to `0`, positive infinity to the
//! register width's maximum; the mapping accepts every bit pattern and never
//! fails.
//!
//! All of this is computed and specified exactly in integer arithmetic over
//! the fields of the bit pattern, so that both endpoints of the link agree on
//! the mapping bit for bit.

use vstd::prelude::*;

use vstd::arithmetic::div_mod::{
    lemma_basic_div, lemma_div_by_multiple, lemma_div_is_ordered,
    lemma_div_multiples_vanish_quotient,
};
use vstd::arithmetic::power2::{
    lemma2_to64, lemma_pow2_adds, lemma_pow2_pos, lemma_pow2_strictly_increases, pow2,
};
use vstd::bits::lemma_u64_shl_is_mul;

verus! {

/// Register value commanded by a 100 percent throttle: full scale.
pub const REGISTER_FULL_SCALE: u16 = 0x8000;

/// Sign field of a single-precision bit pattern.
pub open spec fn f32_sign(bits: u32) -> u32 {
    bits >> 31
}

/// Biased exponent field of a single-precision bit pattern.
pub open spec fn f32_exp(bits: u32) -> u32 {
    (bits >> 23) & 0xff
}

/// Fraction field of a single-precision bit pattern.
pub open spec fn f32_frac(bits: u32) -> u32 {
    bits & 0x7f_ffff
}

/// Integer significand of a finite single-precision value: the fraction
/// field, with the implicit leading bit added for normal numbers.
pub open spec fn significand(bits: u32) -> int {
    if f32_exp(bits) == 0 {
        f32_frac(bits) as int
    } else {
        f32_frac(bits) + 0x80_0000
    }
}

/// Effective binary exponent index of a finite single-precision value, such
/// that its magnitude is `significand(bits) * 2^(exp_index(bits) - 150)`
/// (subnormals share the index of the smallest normal exponent).
pub open spec fn exp_index(bits: u32) -> nat {
    if f32_exp(bits) == 0 {
        1
    } else {
        f32_exp(bits) as nat
    }
}

/// Numerator of the register value as an exact rational: the magnitude of the
/// percentage, scaled by the full range `2^15` — so the register value is
/// `scaled_num(bits) / (100 * 2^135)`, before rounding.
pub open spec fn scaled_num(bits: u32) -> int {
    significand(bits) * (pow2(exp_index(bits)) as int)
}

/// `n / d` rounded to the nearest integer, halves away from zero.
pub open spec fn round_div(n: int, d: int) -> int
    recommends
        0 <= n,
        0 < d,
{
    (2 * n + d) / (2 * d)
}

/// Saturate a non-negative value at the 16-bit register width.
pub open spec fn saturate_u16(x: int) -> u16
    recommends
        0 <= x,
{
    if x > 0xffff {
        0xffff
    } else {
        x as u16
    }
}

/// The duty-cycle register value commanded by the throttle percentage whose
/// IEEE 754 single-precision bit pattern is `bits`: the percentage times
/// `0x8000 / 100`, rounded to the nearest integer and saturated at the
/// register width.  Negative values and NaN command `0`; positive infinity
/// commands the register width's maximum.
pub open spec fn register_for(bits: u32) -> u16 {
    if f32_sign(bits) == 1 {
        0
    } else if f32_exp(bits) == 255 {
        if f32_frac(bits) == 0 {
            0xffff
        } else {
            0
        }
    } else {
        saturate_u16(round_div(scaled_num(bits), 100 * (pow2(135) as int)))
    }
}

/// `pow2` is monotone (non-strictly).
proof fn lemma_pow2_le(a: nat, b: nat)
    requires
        a <= b,
    ensures
        pow2(a) <= pow2(b),
{
    if a < b {
        lemma_pow2_strictly_increases(a, b);
    }
}

/// A finite value below the smallest normal magnitude rounds to register 0.
proof fn lemma_register_subnormal(bits: u32)
    requires
        f32_sign(bits) != 1,
        f32_exp(bits) == 0,
    ensures
        register_for(bits) == 0,
{
    let n = scaled_num(bits);
    let d = 100 * (pow2(135) as int);
    assert(bits & 0x7f_ffff < 0x80_0000) by (bit_vector);
    lemma2_to64();
    assert(pow2(1) == 2);
    assert(n == significand(bits) * 2);
    lemma_pow2_strictly_increases(25, 135);
    assert(pow2(25) == 0x200_0000);
    assert(2 * n < 4 * 0x80_0000);
    assert(0x200_0000 <= pow2(135));
    assert(pow2(135) <= d);
    assert(0 <= 2 * n + d < 2 * d);
    lemma_basic_div(2 * n + d, 2 * d);
    assert(round_div(n, d) == 0);
}

/// A finite value whose biased exponent reaches 135 (a percentage of 256 or
/// more) rounds past the register width and saturates.
proof fn lemma_register_saturates(bits: u32)
    requires
        f32_sign(bits) != 1,
        135 <= f32_exp(bits) <= 254,
    ensures
        register_for(bits) == 0xffff,
{
    let m = significand(bits);
    let e = exp_index(bits);
    let n = scaled_num(bits);
    let d = 100 * (pow2(135) as int);
    let p135 = pow2(135) as int;
    let pe = pow2(e) as int;
    lemma_pow2_pos(135);
    lemma_pow2_pos(e);
    lemma_pow2_le(135, e);
    assert(m >= 0x80_0000);
    assert(n == m * pe);
    assert(m * pe >= 0x80_0000 * p135) by (nonlinear_arith)
        requires
            m >= 0x80_0000,
            pe >= p135,
            p135 > 0,
    ;
    // 2n + d >= 2 * 2^23 * p135 = 16777216 * p135, and 65536 * (2d) is only
    // 13107200 * p135, so the rounded quotient is at least 65536.
    assert(2 * n + d >= 13107200 * p135);
    assert(13107200 * p135 == 65536 * (2 * d));
    lemma_div_by_multiple(65536, 2 * d);
    lemma_div_is_ordered(65536 * (2 * d), 2 * n + d, 2 * d);
    assert(round_div(n, d) >= 65536);
}

/// A normal value whose biased exponent stays below 117 (a percentage below
/// about `2^-18`) rounds to register 0.
proof fn lemma_register_negligible(bits: u32)
    requires
        f32_sign(bits) != 1,
        1 <= f32_exp(bits) <= 116,
    ensures
        register_for(bits) == 0,
{
    let m = significand(bits);
    let e = exp_index(bits);
    let n = scaled_num(bits);
    let d = 100 * (pow2(135) as int);
    let pe = pow2(e) as int;
    assert(bits & 0x7f_ffff < 0x80_0000) by (bit_vector);
    lemma2_to64();
    lemma_pow2_pos(e);
    lemma_pow2_le(e, 116);
    assert(2 * m < 0x200_0000);
    assert(pow2(25) == 0x200_0000);
    assert((2 * m) * pe < pow2(25) * pow2(116)) by (nonlinear_arith)
        requires
            0 <= 2 * m < pow2(25),
            0 < pe <= pow2(116),
    ;
    lemma_pow2_adds(25, 116);
    lemma_pow2_adds(6, 135);
    assert(pow2(6) == 64);
    assert(pow2(141) == 64 * pow2(135));
    assert(2 * n == (2 * m) * pe) by (nonlinear_arith)
        requires
            n == m * pe,
    ;
    assert(2 * n < 64 * pow2(135));
    assert(2 * n + d < 2 * d);
    lemma_pow2_pos(135);
    lemma_basic_div(2 * n + d, 2 * d);
    assert(round_div(n, d) == 0);
}

/// In the computable range, the huge common factor `2^e` cancels out of the
/// rounded quotient: dividing `2m + 100 * 2^s` by twice `100 * 2^s` (with
/// `e + s == 135`) gives the same result as the full-precision rounding.
proof fn lemma_register_cancel(bits: u32, s: nat)
    requires
        f32_sign(bits) != 1,
        1 <= f32_exp(bits) <= 254,
        s == 135 - f32_exp(bits),
    ensures
        round_div(scaled_num(bits), 100 * (pow2(135) as int)) == (2 * significand(bits) + 100 * (pow2(s) as int))
            / (2 * (100 * (pow2(s) as int))),
{
    let m = significand(bits);
    let e = exp_index(bits);
    let n = scaled_num(bits);
    let pe = pow2(e) as int;
    let ps = pow2(s) as int;
    lemma_pow2_pos(e);
    lemma_pow2_pos(s);
    lemma_pow2_adds(e, s);
    assert(pow2(135) == pe * ps);
    assert(m >= 0);
    lemma_div_multiples_vanish_quotient(pe, 2 * m + 100 * ps, 2 * (100 * ps));
    assert((2 * m + 100 * ps) / (2 * (100 * ps)) == (pe * (2 * m + 100 * ps)) / (pe * (2 * (100
        * ps))));
    assert(pe * (2 * m + 100 * ps) == 2 * (m * pe) + 100 * (pe * ps)) by (nonlinear_arith);
    assert(pe * (2 * (100 * ps)) == 2 * (100 * (pe * ps))) by (nonlinear_arith);
    assert(pe * (2 * m + 100 * ps) == 2 * n + 100 * (pow2(135) as int));
    assert(pe * (2 * (100 * ps)) == 2 * (100 * (pow2(135) as int)));
}

/// Map a throttle percentage, given as its IEEE 754 single-precision bit
/// pattern, to the duty-cycle register value it commands.  Accepts every bit
/// pattern and never fails.
pub fn map_throttle(bits: u32) -> (r: u16)
    ensures
        r == register_for(bits),
{
    let sign = bits >> 31;
    let e = (bits >> 23) & 0xff;
    let frac = bits & 0x7f_ffff;
    proof {
        assert(bits >> 31 == 0 || bits >> 31 == 1) by (bit_vector);
        assert((bits >> 23) & 0xff < 256) by (bit_vector);
        assert(bits & 0x7f_ffff < 0x80_0000) by (bit_vector);
    }
    if sign == 1 {
        return 0;
    }
    if e == 255 {
        return if frac == 0 {
            0xffff
        } else {
            0
        };
    }
    if e == 0 {
        proof {
            lemma_register_subnormal(bits);
        }
        return 0;
    }
    if e >= 135 {
        proof {
            lemma_register_saturates(bits);
        }
        return 0xffff;
    }
    let shift = 135 - e;
    if shift >= 19 {
        proof {
            lemma_register_negligible(bits);
        }
        return 0;
    }
    // 117 <= e <= 134: the value is in or near the register's range, and the
    // reduced numerator and denominator fit comfortably in 64 bits.
    let m: u64 = frac as u64 + 0x80_0000;
    let b: u64 = 100u64 << shift;
    proof {
        lemma2_to64();
        lemma_pow2_le(shift as nat, 18);
        assert(pow2(18) == 0x4_0000);
        lemma_u64_shl_is_mul(100u64, shift as u64);
        assert(b == 100 * (pow2(shift as nat) as int));
        lemma_pow2_pos(shift as nat);
        lemma_register_cancel(bits, shift as nat);
    }
    let q: u64 = (2 * m + b) / (2 * b);
    if q > 0xffff {
        0xffff
    } else {
        q as u16
    }
}

} // verus!
