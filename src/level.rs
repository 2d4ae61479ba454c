//! Fader levels given as a unit-interval number. The number arrives as the
//! bit pattern of an IEEE-754 single-precision value and is clamped and
//! scaled with exact integer arithmetic.

use vstd::arithmetic::power2::{lemma2_to64, lemma2_to64_rest, lemma_pow2_strictly_increases, pow2};
use vstd::bits::lemma_u64_shl_is_mul;
use vstd::prelude::*;

verus! {

/// The sign bit of a single-precision number.
pub open spec fn f32_negative(bits: u32) -> bool {
    bits >= 0x8000_0000
}

/// The biased exponent of a single-precision number.
pub open spec fn f32_exponent(bits: u32) -> int {
    (bits as int / 0x80_0000) % 256
}

/// The fraction field of a single-precision number.
pub open spec fn f32_fraction(bits: u32) -> int {
    bits as int % 0x80_0000
}

/// A finite number with exponent below 127 is `f32_mantissa / 2^f32_shift`.
pub open spec fn f32_mantissa(bits: u32) -> int {
    if f32_exponent(bits) == 0 {
        f32_fraction(bits)
    } else {
        f32_fraction(bits) + 0x80_0000
    }
}

pub open spec fn f32_shift(bits: u32) -> nat {
    if f32_exponent(bits) == 0 {
        149
    } else {
        (150 - f32_exponent(bits)) as nat
    }
}

/// `a / b` rounded to the nearest integer, halves up.
pub open spec fn round_ratio(a: int, b: int) -> int {
    (2 * a + b) / (2 * b)
}

/// `round(clamp(x, 0, 1) * 65535)` for the single-precision number `x` with
/// these bits. Infinities clamp to the ends; NaN gives 0. A finite number is
/// at least 1 exactly when its exponent is at least 127.
pub open spec fn level_of_bits(bits: u32) -> int {
    if f32_exponent(bits) == 255 {
        if f32_fraction(bits) == 0 && !f32_negative(bits) {
            65535
        } else {
            0
        }
    } else if f32_negative(bits) {
        0
    } else if f32_exponent(bits) >= 127 {
        65535
    } else {
        round_ratio(f32_mantissa(bits) * 65535, pow2(f32_shift(bits)) as int)
    }
}

/// The device level, 0 to 65535, for a unit-interval number given by its
/// single-precision bits: clamped to [0, 1], scaled by 65535 and rounded.
pub fn level_from_f32_bits(bits: u32) -> (r: u32)
    ensures
        r == level_of_bits(bits),
        r <= 65535,
{
    let exp = (bits >> 23) & 0xff;
    let frac = bits & 0x7f_ffff;
    let negative = bits >> 31 == 1;
    assert(exp == (bits / 0x80_0000) % 256) by (bit_vector)
        requires
            exp == (bits >> 23) & 0xff,
    ;
    assert(frac == bits % 0x80_0000) by (bit_vector)
        requires
            frac == bits & 0x7f_ffff,
    ;
    assert(negative == (bits >= 0x8000_0000)) by (bit_vector)
        requires
            negative == (bits >> 31 == 1),
    ;
    if exp == 255 {
        return if frac == 0 && !negative {
            65535
        } else {
            0
        };
    }
    if negative {
        return 0;
    }
    if exp >= 127 {
        return 65535;
    }
    let m: u64 = if exp == 0 {
        frac as u64
    } else {
        frac as u64 + 0x80_0000
    };
    let shift: u32 = if exp == 0 {
        149
    } else {
        150 - exp
    };
    assert(24 <= shift <= 149);
    assert(m < 0x100_0000);
    let a: u64 = m * 65535;
    proof {
        lemma2_to64();
        lemma2_to64_rest();
    }
    if shift >= 42 {
        proof {
            lemma_pow2_strictly_increases(41, shift as nat);
            let b = pow2(shift as nat) as int;
            assert(2 * a < b);
            assert(0 <= 2 * a + b < 2 * b);
            assert((2 * a + b) / (2 * b) == 0) by (nonlinear_arith)
                requires
                    0 <= 2 * a + b < 2 * b,
            ;
        }
        return 0;
    }
    let b: u64 = 1u64 << shift as u64;
    proof {
        lemma_u64_shl_is_mul(1, shift as u64);
        lemma_pow2_strictly_increases(shift as nat, 42);
    }
    assert(b == pow2(shift as nat));
    let q: u64 = (2 * a + b) / (2 * b);
    proof {
        if shift > 24 {
            lemma_pow2_strictly_increases(24, shift as nat);
        }
        let bb = b as int;
        let num = 2 * a as int + bb;
        assert(q <= 65535) by (nonlinear_arith)
            requires
                q == num / (2 * bb),
                num == 2 * (m * 65535) + bb,
                m < bb,
                bb > 0,
        {
            assert(num < 2 * bb * 65536) by (nonlinear_arith)
                requires
                    num == 2 * (m * 65535) + bb,
                    m < bb,
                    bb > 0,
            ;
        }
    }
    q as u32
}

} // verus!
