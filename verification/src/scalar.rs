//! The numbers of a scene.
//!
//! A [`Scalar`] is an IEEE 754 binary32 number, held by its bit pattern: one
//! sign bit, eight exponent bits and twenty-three fraction bits. The library
//! never rounds: it carries such numbers, negates them, and orders them.
//! Every finite binary32 number is a whole multiple of 2^-149, so the model
//! of a scalar is the integer [`Scalar::scaled`], its value times 2^149; the
//! two infinities fit the same scale, above and below every finite number.

use vstd::prelude::*;
use vstd::arithmetic::power2::pow2;
use vstd::arithmetic::power2::lemma2_to64;
use vstd::arithmetic::power2::lemma_pow2_adds;
use vstd::arithmetic::power2::lemma_pow2_pos;
use vstd::arithmetic::power2::lemma_pow2_unfold;
use vstd::arithmetic::power2::lemma_pow2_strictly_increases;

verus! {

/// The bit that holds the sign.
pub const SIGN_BIT: u32 = 0x8000_0000;

/// The bit pattern of positive infinity; every larger magnitude is a NaN.
pub const INFINITY_BITS: u32 = 0x7f80_0000;

/// Two to the power 23: the weight of the hidden bit of a normal number.
pub const HIDDEN_BIT: u32 = 0x80_0000;

/// The bit pattern of 1.
pub const ONE_BITS: u32 = 0x3f80_0000;

/// The bit pattern of -1.
pub const MINUS_ONE_BITS: u32 = 0xbf80_0000;

/// A binary32 number, by its bit pattern.
///
/// `==` on scalars compares bit patterns; the numeric comparisons are
/// [`Scalar::lt`] and its siblings.
#[derive(Clone, Copy, Debug, PartialEq, Eq, Structural)]
pub struct Scalar {
    pub bits: u32,
}

/// The magnitude, times 2^149, of the number whose exponent and fraction
/// bits are `m`.
///
/// Below 2^23 the number is subnormal and `m` counts multiples of 2^-149.
/// From there on the fraction gets its hidden bit, and each step of the
/// exponent doubles the weight.
pub open spec fn magnitude_of(m: int) -> int {
    if m < 0x80_0000 {
        m
    } else {
        (0x80_0000 + m % 0x80_0000) * pow2((m / 0x80_0000 - 1) as nat)
    }
}

/// Larger exponent and fraction bits stand for a larger magnitude.
pub proof fn lemma_magnitude_grows(m1: int, m2: int)
    requires
        0 <= m1 < m2,
    ensures
        0 <= magnitude_of(m1) < magnitude_of(m2),
{
    let e1 = m1 / 0x80_0000;
    let f1 = m1 % 0x80_0000;
    let e2 = m2 / 0x80_0000;
    let f2 = m2 % 0x80_0000;
    if m1 >= 0x80_0000 {
        let w1 = pow2((e1 - 1) as nat);
        lemma_pow2_pos((e1 - 1) as nat);
        assert(0 <= (0x80_0000 + f1) * w1) by (nonlinear_arith)
            requires
                0 <= f1,
                0 < w1,
        ;
    }
    if m2 >= 0x80_0000 {
        let w2 = pow2((e2 - 1) as nat);
        lemma_pow2_pos((e2 - 1) as nat);
        if m1 < 0x80_0000 {
            assert((0x80_0000 + f2) * w2 >= 0x80_0000) by (nonlinear_arith)
                requires
                    0 <= f2,
                    1 <= w2,
            ;
        } else {
            let w1 = pow2((e1 - 1) as nat);
            lemma_pow2_pos((e1 - 1) as nat);
            if e1 == e2 {
                assert((0x80_0000 + f1) * w1 < (0x80_0000 + f2) * w1) by (nonlinear_arith)
                    requires
                        f1 < f2,
                        0 < w1,
                ;
            } else {
                let q = pow2(e1 as nat);
                lemma_pow2_unfold(e1 as nat);
                if e1 < e2 - 1 {
                    lemma_pow2_strictly_increases(e1 as nat, (e2 - 1) as nat);
                }
                assert((0x80_0000 + f1) * w1 < 0x80_0000 * q) by (nonlinear_arith)
                    requires
                        f1 < 0x80_0000,
                        0 < w1,
                        q == 2 * w1,
                ;
                assert(0x80_0000 * q <= (0x80_0000 + f2) * w2) by (nonlinear_arith)
                    requires
                        0 <= f2,
                        0 < q <= w2,
                ;
            }
        }
    }
}

impl Scalar {
    /// The exponent and fraction bits, as one number below 2^31.
    pub open spec fn magnitude_bits(self) -> int {
        self.bits as int % 0x8000_0000
    }

    /// Whether the sign bit is set.
    pub open spec fn sign_bit(self) -> bool {
        self.bits >= SIGN_BIT
    }

    /// Whether the pattern is not a number.
    pub open spec fn spec_is_nan(self) -> bool {
        self.magnitude_bits() > INFINITY_BITS
    }

    /// Whether the pattern is a finite number.
    pub open spec fn is_finite(self) -> bool {
        self.magnitude_bits() < INFINITY_BITS
    }

    /// Whether the number is zero, of either sign.
    pub open spec fn spec_is_zero(self) -> bool {
        self.magnitude_bits() == 0
    }

    /// The absolute value of the number, times 2^149.
    pub open spec fn magnitude(self) -> int {
        magnitude_of(self.magnitude_bits())
    }

    /// The value of the number, times 2^149. It says nothing of a NaN.
    pub open spec fn scaled(self) -> int {
        if self.sign_bit() {
            -self.magnitude()
        } else {
            self.magnitude()
        }
    }

    /// `self < other` as IEEE 754 has it: false when either side is a NaN.
    pub open spec fn spec_lt(self, other: Scalar) -> bool {
        !self.spec_is_nan() && !other.spec_is_nan() && self.scaled() < other.scaled()
    }

    /// `self <= other` as IEEE 754 has it: false when either side is a NaN.
    pub open spec fn spec_le(self, other: Scalar) -> bool {
        !self.spec_is_nan() && !other.spec_is_nan() && self.scaled() <= other.scaled()
    }

    /// `self > other` as IEEE 754 has it.
    pub open spec fn spec_gt(self, other: Scalar) -> bool {
        other.spec_lt(self)
    }

    /// `self >= other` as IEEE 754 has it.
    pub open spec fn spec_ge(self, other: Scalar) -> bool {
        other.spec_le(self)
    }

    /// The pattern with its sign bit flipped.
    pub open spec fn spec_neg(self) -> Scalar {
        Scalar {
            bits: if self.bits >= SIGN_BIT {
                (self.bits - SIGN_BIT) as u32
            } else {
                (self.bits + SIGN_BIT) as u32
            },
        }
    }

    /// The pattern with its sign bit cleared.
    pub open spec fn spec_abs(self) -> Scalar {
        Scalar { bits: self.magnitude_bits() as u32 }
    }

    /// The place of the number in the order of the bit patterns: the
    /// exponent and fraction bits, counted down from zero under a sign bit.
    pub open spec fn rank(self) -> int {
        if self.sign_bit() {
            -self.magnitude_bits()
        } else {
            self.magnitude_bits()
        }
    }

    /// The scalar with the given bit pattern.
    pub fn from_bits(bits: u32) -> (r: Scalar)
        ensures
            r.bits == bits,
    {
        Scalar { bits }
    }

    /// The bit pattern.
    pub fn to_bits(self) -> (r: u32)
        ensures
            r == self.bits,
    {
        self.bits
    }

    /// Positive zero.
    pub fn zero() -> (r: Scalar)
        ensures
            r.bits == 0,
            r.scaled() == 0,
            !r.spec_is_nan(),
    {
        Scalar { bits: 0 }
    }

    /// The number 1.
    pub fn one() -> (r: Scalar)
        ensures
            r.bits == ONE_BITS,
            r.scaled() == pow2(149),
            !r.spec_is_nan(),
    {
        proof {
            lemma2_to64();
            lemma_pow2_adds(23, 126);
        }
        Scalar { bits: ONE_BITS }
    }

    /// Positive infinity.
    pub fn infinity() -> (r: Scalar)
        ensures
            r.bits == INFINITY_BITS,
            !r.spec_is_nan(),
            !r.is_finite(),
    {
        Scalar { bits: INFINITY_BITS }
    }

    /// Whether the pattern is not a number.
    #[verifier::when_used_as_spec(spec_is_nan)]
    pub fn is_nan(self) -> (r: bool)
        ensures
            r == self.spec_is_nan(),
    {
        self.bits % SIGN_BIT > INFINITY_BITS
    }

    /// Whether the number is zero, of either sign.
    #[verifier::when_used_as_spec(spec_is_zero)]
    pub fn is_zero(self) -> (r: bool)
        ensures
            r == self.spec_is_zero(),
    {
        self.bits % SIGN_BIT == 0
    }

    /// The number with the opposite sign. Exact for every pattern.
    #[verifier::when_used_as_spec(spec_neg)]
    pub fn neg(self) -> (r: Scalar)
        ensures
            r == self.spec_neg(),
            r.spec_is_nan() == self.spec_is_nan(),
            r.magnitude() == self.magnitude(),
            r.scaled() == -self.scaled(),
    {
        if self.bits >= SIGN_BIT {
            Scalar { bits: self.bits - SIGN_BIT }
        } else {
            Scalar { bits: self.bits + SIGN_BIT }
        }
    }

    /// The absolute value. Exact for every pattern.
    #[verifier::when_used_as_spec(spec_abs)]
    pub fn abs(self) -> (r: Scalar)
        ensures
            r == self.spec_abs(),
            r.spec_is_nan() == self.spec_is_nan(),
            r.scaled() == self.magnitude(),
            r.scaled() >= 0,
    {
        proof {
            lemma_magnitude_at_least_zero(self.magnitude_bits());
        }
        Scalar { bits: self.bits % SIGN_BIT }
    }

    fn place(self) -> (k: i64)
        ensures
            k == self.rank(),
    {
        let m: u32 = self.bits % SIGN_BIT;
        if self.bits >= SIGN_BIT {
            -(m as i64)
        } else {
            m as i64
        }
    }

    /// `self < other`, false when either side is a NaN.
    #[verifier::when_used_as_spec(spec_lt)]
    pub fn lt(self, other: Scalar) -> (r: bool)
        ensures
            r == self.spec_lt(other),
    {
        proof {
            lemma_rank_orders(self, other);
        }
        !self.is_nan() && !other.is_nan() && self.place() < other.place()
    }

    /// `self <= other`, false when either side is a NaN.
    #[verifier::when_used_as_spec(spec_le)]
    pub fn le(self, other: Scalar) -> (r: bool)
        ensures
            r == self.spec_le(other),
    {
        proof {
            lemma_rank_orders(self, other);
        }
        !self.is_nan() && !other.is_nan() && self.place() <= other.place()
    }

    /// `self > other`, false when either side is a NaN.
    #[verifier::when_used_as_spec(spec_gt)]
    pub fn gt(self, other: Scalar) -> (r: bool)
        ensures
            r == self.spec_gt(other),
    {
        other.lt(self)
    }

    /// `self >= other`, false when either side is a NaN.
    #[verifier::when_used_as_spec(spec_ge)]
    pub fn ge(self, other: Scalar) -> (r: bool)
        ensures
            r == self.spec_ge(other),
    {
        other.le(self)
    }
}

/// A magnitude is never negative, and is zero only for the zero bits.
pub proof fn lemma_magnitude_at_least_zero(m: int)
    requires
        0 <= m,
    ensures
        0 <= magnitude_of(m),
        magnitude_of(m) == 0 <==> m == 0,
{
    if m > 0 {
        lemma_magnitude_grows(0, m);
    }
}

/// The order of the ranks is the order of the values: comparing two numbers
/// comes down to comparing two integers read off their bits.
pub proof fn lemma_rank_orders(a: Scalar, b: Scalar)
    ensures
        a.rank() < b.rank() <==> a.scaled() < b.scaled(),
        a.rank() <= b.rank() <==> a.scaled() <= b.scaled(),
        a.rank() == b.rank() <==> a.scaled() == b.scaled(),
{
    let ma = a.magnitude_bits();
    let mb = b.magnitude_bits();
    lemma_magnitude_at_least_zero(ma);
    lemma_magnitude_at_least_zero(mb);
    if ma < mb {
        lemma_magnitude_grows(ma, mb);
    } else if mb < ma {
        lemma_magnitude_grows(mb, ma);
    }
}

} // verus!
