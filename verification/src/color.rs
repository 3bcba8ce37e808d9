//! From a colour to the three levels of a pixel.

use crate::scalar::{
    lemma_ordinal_orders_as_value, scaled_magnitude, scaled_value, spec_clamp, Scalar,
    FRACTION_SPAN,
};
use crate::vec3::Vector3;
use vstd::arithmetic::div_mod::{
    lemma_basic_div, lemma_div_is_ordered, lemma_div_is_ordered_by_denominator,
    lemma_div_multiples_vanish_quotient,
};
use vstd::arithmetic::power2::{
    lemma2_to64, lemma2_to64_rest, lemma_pow2_adds, lemma_pow2_pos, lemma_pow2_strictly_increases,
    pow2,
};
use vstd::bits::lemma_u64_shr_is_div;
use vstd::prelude::*;

verus! {

/// The encoding of the brightest channel value that is told apart, 0.999:
/// it is the largest value that stays below the 256th level.
pub const BRIGHTEST_BITS: u64 = 0x3FEF_F7CE_D916_872B;

/// The level of a channel whose averaged value is `average`: the value is
/// brought into zero to 0.999, multiplied by 256 and cut down to a whole
/// number. What is no number gives level 0.
pub open spec fn spec_channel_level(average: Scalar) -> int {
    let c = spec_clamp(average, Scalar::zero(), Scalar { bits: BRIGHTEST_BITS });
    if c.is_nan() {
        0
    } else {
        (256 * scaled_value(c)) / (pow2(1074) as int)
    }
}

/// For a number `(span + fraction) * 2^(exponent - 1) / 2^1074` from one to
/// 1022 in exponent, 256 times the number, cut down to a whole number, is
/// `span + fraction` divided by two to the power `1067 - exponent`.
proof fn lemma_level_of_normal(exponent: int, fraction: int)
    requires
        1 <= exponent <= 1022,
        0 <= fraction < FRACTION_SPAN,
    ensures
        (256 * ((FRACTION_SPAN + fraction) * pow2((exponent - 1) as nat))) / (pow2(1074) as int)
            == (FRACTION_SPAN + fraction) / (pow2((1067 - exponent) as nat) as int),
{
    let a = FRACTION_SPAN + fraction;
    let up = pow2((exponent + 7) as nat) as int;
    let down = pow2((1067 - exponent) as nat) as int;
    lemma2_to64();
    lemma_pow2_pos((exponent + 7) as nat);
    lemma_pow2_pos((1067 - exponent) as nat);
    assert(pow2(8) * pow2((exponent - 1) as nat) == up) by {
        lemma_pow2_adds(8, (exponent - 1) as nat);
    }
    assert(up * down == pow2(1074)) by {
        lemma_pow2_adds((exponent + 7) as nat, (1067 - exponent) as nat);
    }
    assert(256 * (a * pow2((exponent - 1) as nat)) == up * a) by (nonlinear_arith)
        requires
            256 * pow2((exponent - 1) as nat) == up,
    ;
    assert((up * a) / (up * down) == a / down) by {
        lemma_div_multiples_vanish_quotient(up, a, down);
    }
}

/// The level, from 0 to 255, at which a channel of averaged value `average`
/// is written.
pub fn channel_level(average: Scalar) -> (level: u8)
    ensures
        level as int == spec_channel_level(average),
{
    let c = average.clamp(Scalar::zero(), Scalar::from_bits(BRIGHTEST_BITS));
    if c.is_nan() {
        return 0;
    }
    let m: u64 = c.abs().bits;
    proof {
        assert(m <= BRIGHTEST_BITS);
        assert(scaled_value(c) == scaled_magnitude(m as int));
    }
    let exponent: u64 = m / FRACTION_SPAN;
    let fraction: u64 = m % FRACTION_SPAN;
    proof {
        lemma2_to64();
        lemma2_to64_rest();
        lemma_pow2_pos(1074);
        assert(exponent <= 1022);
        assert(exponent as int == (m as int) / (FRACTION_SPAN as int));
        assert(fraction as int == (m as int) % (FRACTION_SPAN as int));
    }
    if exponent == 0 {
        proof {
            // the value is below two to the power -1022
            assert(pow2(60) < pow2(1074)) by {
                lemma_pow2_strictly_increases(60, 1074);
            }
            assert(256 * fraction < pow2(60)) by {
                assert(pow2(60) == 0x1000_0000_0000_0000);
            }
            lemma_basic_div(256 * fraction, pow2(1074) as int);
        }
        0
    } else if exponent < 1015 {
        proof {
            lemma_level_of_normal(exponent as int, fraction as int);
            let down = pow2((1067 - exponent) as nat) as int;
            assert(pow2(53) <= down) by {
                if 53 < 1067 - exponent {
                    lemma_pow2_strictly_increases(53, (1067 - exponent) as nat);
                }
            }
            assert(pow2(53) == 0x20_0000_0000_0000);
            lemma_basic_div(FRACTION_SPAN + fraction, down);
        }
        0
    } else {
        let shift: u64 = 1067 - exponent;
        let quotient: u64 = (FRACTION_SPAN + fraction) >> shift;
        proof {
            lemma_level_of_normal(exponent as int, fraction as int);
            lemma_u64_shr_is_div((FRACTION_SPAN + fraction) as u64, shift);
            let down = pow2(shift as nat) as int;
            assert(pow2(45) <= down) by {
                if 45 < shift {
                    lemma_pow2_strictly_increases(45, shift as nat);
                }
            }
            assert(pow2(45) == 0x2000_0000_0000);
            assert(quotient as int == (FRACTION_SPAN + fraction) / down);
            let whole = FRACTION_SPAN + fraction;
            assert(whole / down <= whole / (pow2(45) as int)) by {
                lemma_div_is_ordered_by_denominator(whole, pow2(45) as int, down);
            }
            assert((FRACTION_SPAN + fraction) / 0x2000_0000_0000 <= 255);
        }
        quotient as u8
    }
}

/// Of two channel values the larger is written at no lower a level.
pub proof fn lemma_brighter_is_no_darker(a: Scalar, b: Scalar)
    requires
        a.le(b),
    ensures
        0 <= spec_channel_level(a) <= spec_channel_level(b),
{
    let top = Scalar { bits: BRIGHTEST_BITS };
    let ca = spec_clamp(a, Scalar::zero(), top);
    let cb = spec_clamp(b, Scalar::zero(), top);
    assert(Scalar::zero().le(ca) && ca.le(cb));
    lemma_ordinal_orders_as_value(Scalar::zero(), ca);
    lemma_ordinal_orders_as_value(ca, cb);
    assert(scaled_value(Scalar::zero()) == 0);
    lemma_pow2_pos(1074);
    lemma_div_is_ordered(0, 256 * scaled_value(ca), pow2(1074) as int);
    lemma_div_is_ordered(256 * scaled_value(ca), 256 * scaled_value(cb), pow2(1074) as int);
}

/// The three levels at which a pixel of averaged colour `average` is
/// written: red, green, blue.
pub fn pixel_levels(average: Vector3) -> (levels: (u8, u8, u8))
    ensures
        levels.0 as int == spec_channel_level(average.x),
        levels.1 as int == spec_channel_level(average.y),
        levels.2 as int == spec_channel_level(average.z),
{
    (channel_level(average.x), channel_level(average.y), channel_level(average.z))
}

} // verus!
