//! Single-precision numbers as the library holds them: by their bits.
//!
//! A reading reaches the library as the 32 bits of an IEEE-754 binary32
//! number. Every comparison the rules make is decided on those bits, and is
//! proved to agree with the order of the numbers they stand for.

use vstd::prelude::*;
use vstd::arithmetic::mul::*;
use vstd::arithmetic::power2::*;

verus! {

/// A single-precision number: one sign bit, eight exponent bits and
/// twenty-three fraction bits, from the top down.
#[derive(Clone, Copy, Debug)]
pub struct Single {
    pub bits: u32,
}

/// The count of quanta in the whole number `n`: `n` times 2^149.
pub open spec fn whole(n: int) -> int {
    n * pow2(149)
}

impl Single {
    /// Whether the sign bit is set.
    pub open spec fn spec_is_sign_negative(self) -> bool {
        self.bits >= 0x8000_0000
    }

    /// The thirty-one bits below the sign bit.
    pub open spec fn spec_magnitude_bits(self) -> u32 {
        (self.bits % 0x8000_0000) as u32
    }

    /// The eight exponent bits, as a number below 256.
    pub open spec fn exponent(self) -> nat {
        (self.spec_magnitude_bits() / 0x80_0000) as nat
    }

    /// The twenty-three fraction bits, as a number below 2^23.
    pub open spec fn fraction(self) -> nat {
        (self.spec_magnitude_bits() % 0x80_0000) as nat
    }

    /// Not a number: the exponent bits are all ones and the fraction is not zero.
    pub open spec fn spec_is_nan(self) -> bool {
        self.exponent() == 255 && self.fraction() != 0
    }

    /// An infinity: the exponent bits are all ones and the fraction is zero.
    pub open spec fn spec_is_infinite(self) -> bool {
        self.exponent() == 255 && self.fraction() == 0
    }

    /// Neither an infinity nor a NaN.
    pub open spec fn spec_is_finite(self) -> bool {
        self.exponent() < 255
    }

    /// The significand: the fraction, with the hidden leading one of a
    /// normal number put in front.
    pub open spec fn significand(self) -> nat {
        if self.exponent() == 0 {
            self.fraction()
        } else {
            0x80_0000 + self.fraction()
        }
    }

    /// The power of two by which the significand is scaled, counted from the
    /// smallest one, 2^-149.
    pub open spec fn scale(self) -> nat {
        if self.exponent() == 0 {
            0
        } else {
            (self.exponent() - 1) as nat
        }
    }

    /// The absolute value in quanta of 2^-149, the smallest positive single.
    /// An infinity counts as 2^128, which no finite single reaches.
    pub open spec fn magnitude(self) -> nat {
        self.significand() * pow2(self.scale())
    }

    /// The value in quanta of 2^-149: the magnitude with the sign. Both
    /// zeros count as zero. Undefined in meaning for a NaN.
    pub open spec fn quanta(self) -> int {
        if self.spec_is_sign_negative() {
            -(self.magnitude() as int)
        } else {
            self.magnitude() as int
        }
    }

    /// `self <= other` as numbers: false as soon as either is a NaN.
    pub open spec fn spec_le(self, other: Single) -> bool {
        !self.spec_is_nan() && !other.spec_is_nan() && self.quanta() <= other.quanta()
    }

    /// `self < other` as numbers: false as soon as either is a NaN.
    pub open spec fn spec_lt(self, other: Single) -> bool {
        !self.spec_is_nan() && !other.spec_is_nan() && self.quanta() < other.quanta()
    }

    /// `self >= other` as numbers: false as soon as either is a NaN.
    pub open spec fn spec_ge(self, other: Single) -> bool {
        other.spec_le(self)
    }

    /// `self > other` as numbers: false as soon as either is a NaN.
    pub open spec fn spec_gt(self, other: Single) -> bool {
        other.spec_lt(self)
    }

    /// A number, and no more than the whole number `n`.
    pub open spec fn at_most(self, n: int) -> bool {
        !self.spec_is_nan() && self.quanta() <= whole(n)
    }

    /// A number, and no less than the whole number `n`.
    pub open spec fn at_least(self, n: int) -> bool {
        !self.spec_is_nan() && self.quanta() >= whole(n)
    }

    /// A number, and more than the whole number `n`.
    pub open spec fn above(self, n: int) -> bool {
        !self.spec_is_nan() && self.quanta() > whole(n)
    }

    /// The single with the given bits.
    pub fn from_bits(bits: u32) -> (r: Single)
        ensures
            r.bits == bits,
    {
        Single { bits }
    }

    /// The bits of this single.
    pub fn to_bits(self) -> (r: u32)
        ensures
            r == self.bits,
    {
        self.bits
    }

    /// The bits below the sign bit.
    #[verifier::when_used_as_spec(spec_magnitude_bits)]
    pub fn magnitude_bits(self) -> (r: u32)
        ensures
            r == self.spec_magnitude_bits(),
    {
        self.bits % 0x8000_0000
    }

    /// Whether the sign bit is set; it is for the negative zero too.
    #[verifier::when_used_as_spec(spec_is_sign_negative)]
    pub fn is_sign_negative(self) -> (r: bool)
        ensures
            r == self.spec_is_sign_negative(),
    {
        self.bits >= 0x8000_0000
    }

    /// Whether this is a NaN.
    #[verifier::when_used_as_spec(spec_is_nan)]
    pub fn is_nan(self) -> (r: bool)
        ensures
            r == self.spec_is_nan(),
    {
        self.magnitude_bits() > 0x7f80_0000
    }

    /// Whether this is one of the two infinities.
    #[verifier::when_used_as_spec(spec_is_infinite)]
    pub fn is_infinite(self) -> (r: bool)
        ensures
            r == self.spec_is_infinite(),
    {
        self.magnitude_bits() == 0x7f80_0000
    }

    /// Whether this is a finite number.
    #[verifier::when_used_as_spec(spec_is_finite)]
    pub fn is_finite(self) -> (r: bool)
        ensures
            r == self.spec_is_finite(),
    {
        self.magnitude_bits() < 0x7f80_0000
    }

    /// The magnitude bits with the sign: a number that is ordered as the
    /// values are, for all but NaNs.
    pub open spec fn rank(self) -> int {
        if self.spec_is_sign_negative() {
            -(self.spec_magnitude_bits() as int)
        } else {
            self.spec_magnitude_bits() as int
        }
    }

    fn ranked(self) -> (r: i64)
        ensures
            r == self.rank(),
    {
        let low: u32 = self.magnitude_bits();
        if self.is_sign_negative() {
            -(low as i64)
        } else {
            low as i64
        }
    }

    /// `self <= other` as numbers.
    #[verifier::when_used_as_spec(spec_le)]
    pub fn le(self, other: Single) -> (r: bool)
        ensures
            r == self.spec_le(other),
    {
        if self.is_nan() || other.is_nan() {
            return false;
        }
        proof {
            lemma_rank_orders(self, other);
        }
        self.ranked() <= other.ranked()
    }

    /// `self < other` as numbers.
    #[verifier::when_used_as_spec(spec_lt)]
    pub fn lt(self, other: Single) -> (r: bool)
        ensures
            r == self.spec_lt(other),
    {
        if self.is_nan() || other.is_nan() {
            return false;
        }
        proof {
            lemma_rank_orders(self, other);
        }
        self.ranked() < other.ranked()
    }

    /// `self >= other` as numbers.
    #[verifier::when_used_as_spec(spec_ge)]
    pub fn ge(self, other: Single) -> (r: bool)
        ensures
            r == self.spec_ge(other),
    {
        other.le(self)
    }

    /// `self > other` as numbers.
    #[verifier::when_used_as_spec(spec_gt)]
    pub fn gt(self, other: Single) -> (r: bool)
        ensures
            r == self.spec_gt(other),
    {
        other.lt(self)
    }
}

/// Among numbers that are not NaNs, a larger pattern below the sign bit is
/// a larger magnitude.
pub proof fn lemma_magnitude_grows(a: Single, b: Single)
    requires
        !a.spec_is_nan(),
        !b.spec_is_nan(),
        a.spec_magnitude_bits() < b.spec_magnitude_bits(),
    ensures
        a.magnitude() < b.magnitude(),
{
    let pa = pow2(a.scale()) as int;
    let pb = pow2(b.scale()) as int;
    let ma = a.significand() as int;
    let mb = b.significand() as int;
    lemma_pow2_pos(a.scale());
    lemma_pow2_pos(b.scale());
    if a.exponent() == b.exponent() {
        assert(ma < mb);
        lemma_mul_strict_inequality(ma, mb, pa);
    } else {
        assert(a.exponent() < b.exponent());
        // b starts at 2^23 scaled as b is, and a ends below that
        lemma_mul_inequality(0x80_0000, mb, pb);
        assert(0x80_0000 * pb <= b.magnitude());
        if a.exponent() == 0 {
            lemma2_to64();
            assert(pa == 1);
            assert(ma * pa == ma) by (nonlinear_arith)
                requires
                    pa == 1,
            ;
            assert(0x80_0000 <= 0x80_0000 * pb) by (nonlinear_arith)
                requires
                    pb >= 1,
            ;
        } else {
            let next = pow2(a.scale() + 1) as int;
            lemma_pow2_unfold(a.scale() + 1);
            assert(next == 2 * pa);
            if a.scale() + 1 < b.scale() {
                lemma_pow2_strictly_increases(a.scale() + 1, b.scale());
            }
            assert(next <= pb);
            lemma_mul_strict_inequality(ma, 0x100_0000, pa);
            assert(ma * pa < 0x80_0000 * next) by (nonlinear_arith)
                requires
                    ma * pa < 0x100_0000 * pa,
                    next == 2 * pa,
            ;
            lemma_mul_left_inequality(0x80_0000, next, pb);
        }
    }
}

/// Among numbers that are not NaNs, the patterns below the sign bit are
/// ordered as the magnitudes are.
pub proof fn lemma_magnitude_orders(a: Single, b: Single)
    requires
        !a.spec_is_nan(),
        !b.spec_is_nan(),
    ensures
        a.spec_magnitude_bits() < b.spec_magnitude_bits() <==> a.magnitude() < b.magnitude(),
        a.spec_magnitude_bits() == b.spec_magnitude_bits() <==> a.magnitude() == b.magnitude(),
{
    if a.spec_magnitude_bits() < b.spec_magnitude_bits() {
        lemma_magnitude_grows(a, b);
    } else if b.spec_magnitude_bits() < a.spec_magnitude_bits() {
        lemma_magnitude_grows(b, a);
    }
}

/// The magnitude is zero for the all-zero pattern below the sign bit only.
pub proof fn lemma_zero_magnitude(a: Single)
    ensures
        a.magnitude() == 0 <==> a.spec_magnitude_bits() == 0,
{
    let m = a.significand() as int;
    let p = pow2(a.scale()) as int;
    lemma_pow2_pos(a.scale());
    assert(m * p == 0 <==> m == 0) by (nonlinear_arith)
        requires
            p > 0,
            m >= 0,
    ;
}

/// Among numbers that are not NaNs, the order of the ranks is the order of
/// the values.
pub proof fn lemma_rank_orders(a: Single, b: Single)
    requires
        !a.spec_is_nan(),
        !b.spec_is_nan(),
    ensures
        a.rank() <= b.rank() <==> a.quanta() <= b.quanta(),
        a.rank() < b.rank() <==> a.quanta() < b.quanta(),
        a.rank() == b.rank() <==> a.quanta() == b.quanta(),
{
    lemma_zero_magnitude(a);
    lemma_zero_magnitude(b);
    lemma_magnitude_orders(a, b);
}

/// A positive normal single whose significand is `n` times the power of two
/// that its scale leaves up to 2^149 is the whole number `n`.
pub proof fn lemma_whole_quanta(x: Single, n: nat)
    requires
        !x.spec_is_sign_negative(),
        1 <= x.exponent() <= 150,
        x.significand() == n * pow2((150 - x.exponent()) as nat),
    ensures
        !x.spec_is_nan(),
        x.quanta() == whole(n as int),
{
    let up = (150 - x.exponent()) as nat;
    lemma_pow2_adds(up, x.scale());
    assert(pow2(149) == pow2(up) * pow2(x.scale()));
    lemma_mul_is_associative(n as int, pow2(up) as int, pow2(x.scale()) as int);
}

} // verus!
