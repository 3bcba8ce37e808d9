//! Numbers as the tracer sees them: 64-bit binary encodings that it orders,
//! negates and hands on, but never computes with.
//!
//! Whoever does the arithmetic passes each number in by its encoding
//! (sign bit, eleven exponent bits, fifty-two fraction bits) and gets
//! encodings back. Every comparison the tracer makes is a comparison of
//! [`Scalar::ordinal`]s, and [`lemma_ordinal_orders_as_value`] shows that the
//! ordinals stand in the order of the numbers that the encodings denote.

use vstd::arithmetic::power2::{lemma_pow2_pos, lemma_pow2_strictly_increases, pow2};
use vstd::prelude::*;

verus! {

/// The encoding with only the sign bit set.
pub const SIGN_BIT: u64 = 0x8000_0000_0000_0000;

/// The encoding of positive infinity; a larger magnitude denotes no number.
pub const INFINITY_BITS: u64 = 0x7FF0_0000_0000_0000;

/// The encoding of one.
pub const ONE_BITS: u64 = 0x3FF0_0000_0000_0000;

/// The number of encodings that share one exponent: two to the power 52.
pub const FRACTION_SPAN: u64 = 0x0010_0000_0000_0000;

/// A number held by its 64-bit binary encoding.
///
/// Two scalars are `==` when their encodings are the same bit for bit, which
/// tells the two zeros apart; [`Scalar::lt`] and its kin order them as numbers.
#[derive(Clone, Copy, Debug, PartialEq, Eq, Structural)]
pub struct Scalar {
    pub bits: u64,
}

impl Scalar {
    pub open spec fn spec_zero() -> Scalar {
        Scalar { bits: 0 }
    }

    pub open spec fn spec_one() -> Scalar {
        Scalar { bits: ONE_BITS }
    }

    pub open spec fn spec_infinity() -> Scalar {
        Scalar { bits: INFINITY_BITS }
    }

    /// Whether the sign bit is set.
    pub open spec fn negative(self) -> bool {
        self.bits >= SIGN_BIT
    }

    /// The encoding with the sign bit cleared.
    pub open spec fn magnitude(self) -> int {
        if self.bits >= SIGN_BIT {
            self.bits - SIGN_BIT
        } else {
            self.bits as int
        }
    }

    /// Whether the encoding denotes no number.
    pub open spec fn spec_is_nan(self) -> bool {
        self.magnitude() > INFINITY_BITS
    }

    /// The place of the encoding among all encodings of numbers: the magnitude,
    /// counted downwards from zero where the sign bit is set. Both zeros have
    /// ordinal 0.
    pub open spec fn ordinal(self) -> int {
        if self.negative() {
            -self.magnitude()
        } else {
            self.magnitude()
        }
    }

    /// `self < other` as numbers: false as soon as either denotes no number.
    pub open spec fn spec_lt(self, other: Scalar) -> bool {
        !self.spec_is_nan() && !other.spec_is_nan() && self.ordinal() < other.ordinal()
    }

    /// `self > other` as numbers.
    pub open spec fn spec_gt(self, other: Scalar) -> bool {
        other.spec_lt(self)
    }

    /// `self <= other` as numbers.
    pub open spec fn spec_le(self, other: Scalar) -> bool {
        !self.spec_is_nan() && !other.spec_is_nan() && self.ordinal() <= other.ordinal()
    }

    /// The scalar with the sign bit flipped and every other bit kept.
    pub open spec fn spec_neg(self) -> Scalar {
        if self.bits >= SIGN_BIT {
            Scalar { bits: (self.bits - SIGN_BIT) as u64 }
        } else {
            Scalar { bits: (self.bits + SIGN_BIT) as u64 }
        }
    }

    /// The scalar with the sign bit cleared.
    pub open spec fn spec_abs(self) -> Scalar {
        Scalar { bits: self.magnitude() as u64 }
    }

    pub fn from_bits(bits: u64) -> (s: Scalar)
        ensures
            s.bits == bits,
    {
        Scalar { bits }
    }

    pub fn to_bits(self) -> (bits: u64)
        ensures
            bits == self.bits,
    {
        self.bits
    }

    /// Positive zero.
    #[verifier::when_used_as_spec(spec_zero)]
    pub fn zero() -> (s: Scalar)
        ensures
            s == Scalar::spec_zero(),
    {
        Scalar { bits: 0 }
    }

    /// One.
    #[verifier::when_used_as_spec(spec_one)]
    pub fn one() -> (s: Scalar)
        ensures
            s == Scalar::spec_one(),
    {
        Scalar { bits: ONE_BITS }
    }

    /// Positive infinity, above every other number.
    #[verifier::when_used_as_spec(spec_infinity)]
    pub fn infinity() -> (s: Scalar)
        ensures
            s == Scalar::spec_infinity(),
    {
        Scalar { bits: INFINITY_BITS }
    }

    #[verifier::when_used_as_spec(spec_is_nan)]
    pub fn is_nan(self) -> (r: bool)
        ensures
            r == self.spec_is_nan(),
    {
        self.abs().bits > INFINITY_BITS
    }

    #[verifier::when_used_as_spec(spec_abs)]
    pub fn abs(self) -> (r: Scalar)
        ensures
            r == self.spec_abs(),
            !r.negative(),
            r.magnitude() == self.magnitude(),
    {
        if self.bits >= SIGN_BIT {
            Scalar { bits: self.bits - SIGN_BIT }
        } else {
            self
        }
    }

    /// Negation: the sign changes and nothing else, whatever the encoding
    /// denotes.
    #[verifier::when_used_as_spec(spec_neg)]
    pub fn neg(self) -> (r: Scalar)
        ensures
            r == self.spec_neg(),
            r.negative() == !self.negative(),
            r.magnitude() == self.magnitude(),
            r.ordinal() == -self.ordinal(),
            r.spec_is_nan() == self.spec_is_nan(),
    {
        if self.bits >= SIGN_BIT {
            Scalar { bits: self.bits - SIGN_BIT }
        } else {
            Scalar { bits: self.bits + SIGN_BIT }
        }
    }

    #[verifier::when_used_as_spec(spec_lt)]
    pub fn lt(self, other: Scalar) -> (r: bool)
        ensures
            r == self.spec_lt(other),
    {
        if self.is_nan() || other.is_nan() {
            return false;
        }
        let a: u64 = self.abs().bits;
        let b: u64 = other.abs().bits;
        if self.bits >= SIGN_BIT {
            if other.bits >= SIGN_BIT {
                b < a
            } else {
                a > 0 || b > 0
            }
        } else {
            if other.bits >= SIGN_BIT {
                false
            } else {
                a < b
            }
        }
    }

    #[verifier::when_used_as_spec(spec_gt)]
    pub fn gt(self, other: Scalar) -> (r: bool)
        ensures
            r == self.spec_gt(other),
    {
        other.lt(self)
    }

    #[verifier::when_used_as_spec(spec_le)]
    pub fn le(self, other: Scalar) -> (r: bool)
        ensures
            r == self.spec_le(other),
    {
        if self.is_nan() || other.is_nan() {
            return false;
        }
        !other.lt(self)
    }

    /// `self` brought into the interval from `low` to `high`.
    pub fn clamp(self, low: Scalar, high: Scalar) -> (c: Scalar)
        ensures
            c == spec_clamp(self, low, high),
            low.spec_le(high) && !self.spec_is_nan() ==> low.spec_le(c) && c.spec_le(high),
    {
        if self.lt(low) {
            low
        } else if self.gt(high) {
            high
        } else {
            self
        }
    }
}

/// `x` brought into the interval from `low` to `high`: what is below `low`
/// becomes `low` and what is above `high` becomes `high`. What is no number
/// stays so.
pub open spec fn spec_clamp(x: Scalar, low: Scalar, high: Scalar) -> Scalar {
    if x.spec_lt(low) {
        low
    } else if x.spec_gt(high) {
        high
    } else {
        x
    }
}

/// Two to the power 1074 times the number that a magnitude denotes: a whole
/// number for every magnitude up to infinity's, which is counted as the power
/// of two that follows the largest finite number.
pub open spec fn scaled_magnitude(m: int) -> int
    recommends
        0 <= m <= INFINITY_BITS,
{
    let exponent = m / (FRACTION_SPAN as int);
    let fraction = m % (FRACTION_SPAN as int);
    if exponent == 0 {
        fraction
    } else {
        (FRACTION_SPAN + fraction) * pow2((exponent - 1) as nat)
    }
}

/// Two to the power 1074 times the number that a scalar denotes.
pub open spec fn scaled_value(s: Scalar) -> int
    recommends
        !s.spec_is_nan(),
{
    if s.negative() {
        -scaled_magnitude(s.magnitude())
    } else {
        scaled_magnitude(s.magnitude())
    }
}

/// A larger magnitude denotes a larger number.
pub proof fn lemma_scaled_magnitude_increases(m: int, n: int)
    requires
        0 <= m < n,
    ensures
        0 <= scaled_magnitude(m) < scaled_magnitude(n),
{
    let span = FRACTION_SPAN as int;
    let em = m / span;
    let en = n / span;
    let fm = m % span;
    let fn_ = n % span;
    assert(m == span * em + fm && 0 <= fm < span) by {
        vstd::arithmetic::div_mod::lemma_fundamental_div_mod(m, span);
        vstd::arithmetic::div_mod::lemma_mod_bound(m, span);
    }
    assert(n == span * en + fn_ && 0 <= fn_ < span) by {
        vstd::arithmetic::div_mod::lemma_fundamental_div_mod(n, span);
        vstd::arithmetic::div_mod::lemma_mod_bound(n, span);
    }
    assert(0 <= em) by {
        vstd::arithmetic::div_mod::lemma_div_pos_is_pos(m, span);
    }
    assert(em <= en) by {
        vstd::arithmetic::div_mod::lemma_div_is_ordered(m, n, span);
    }
    if em == en {
        assert(fm < fn_) by (nonlinear_arith)
            requires
                m == span * em + fm,
                n == span * en + fn_,
                em == en,
                m < n,
        ;
        if em > 0 {
            let p = pow2((em - 1) as nat) as int;
            lemma_pow2_pos((em - 1) as nat);
            assert((span + fm) * p < (span + fn_) * p) by (nonlinear_arith)
                requires
                    fm < fn_,
                    p > 0,
            ;
            assert(0 <= (span + fm) * p) by (nonlinear_arith)
                requires
                    0 <= fm,
                    span > 0,
                    p > 0,
            ;
        }
    } else {
        let q = pow2((en - 1) as nat) as int;
        lemma_pow2_pos((en - 1) as nat);
        if em == 0 {
            assert(span + fn_ <= (span + fn_) * q) by (nonlinear_arith)
                requires
                    0 <= fn_,
                    span > 0,
                    q >= 1,
            ;
        } else {
            let p = pow2((em - 1) as nat) as int;
            lemma_pow2_pos((em - 1) as nat);
            // (span + fm) * p < 2 * span * p = span * 2^em <= span * q
            assert(2 * p == pow2(em as nat)) by {
                vstd::arithmetic::power2::lemma_pow2_unfold(em as nat);
            }
            assert(pow2(em as nat) <= q) by {
                if em < en - 1 {
                    lemma_pow2_strictly_increases(em as nat, (en - 1) as nat);
                }
            }
            assert((span + fm) * p < span * (2 * p)) by (nonlinear_arith)
                requires
                    0 <= fm < span,
                    p > 0,
            ;
            assert(span * (2 * p) <= (span + fn_) * q) by (nonlinear_arith)
                requires
                    2 * p <= q,
                    0 <= fn_,
                    span > 0,
                    p > 0,
            ;
            assert(0 <= (span + fm) * p) by (nonlinear_arith)
                requires
                    0 <= fm,
                    span > 0,
                    p > 0,
            ;
        }
    }
}

/// The ordinals of two scalars stand in the order of the numbers that the
/// scalars denote: comparing ordinals is comparing numbers.
pub proof fn lemma_ordinal_orders_as_value(a: Scalar, b: Scalar)
    requires
        !a.spec_is_nan(),
        !b.spec_is_nan(),
    ensures
        a.ordinal() < b.ordinal() <==> scaled_value(a) < scaled_value(b),
        a.ordinal() == b.ordinal() <==> scaled_value(a) == scaled_value(b),
{
    let m = a.magnitude();
    let n = b.magnitude();
    if m < n {
        lemma_scaled_magnitude_increases(m, n);
    } else if n < m {
        lemma_scaled_magnitude_increases(n, m);
    }
    if 0 < m {
        lemma_scaled_magnitude_increases(0, m);
    }
    if 0 < n {
        lemma_scaled_magnitude_increases(0, n);
    }
    assert(scaled_magnitude(0) == 0);
}

} // verus!
