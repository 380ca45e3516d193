//! Binary64 numbers, held by their bit patterns.
//!
//! A [`Scalar`] is the 64 bits of a binary64 number. What the bits mean is
//! stated in whole numbers: every finite binary64 number is a whole multiple of
//! two to the power -1074, so its [`Scalar::value`] is an integer, and order,
//! sign and range are statements about that integer.

use vstd::arithmetic::power2::{
    lemma2_to64_rest, lemma_pow2_adds, lemma_pow2_pos, lemma_pow2_strictly_increases,
    lemma_pow2_unfold, pow2,
};
use vstd::prelude::*;

verus! {

/// The bit that holds the sign.
pub const SIGN_BIT: u64 = 0x8000_0000_0000_0000;

/// The bits of positive infinity. A larger magnitude is a NaN.
pub const INFINITY_BITS: u64 = 0x7ff0_0000_0000_0000;

/// Two to the power 52: the weight of the exponent field, and the bit that a
/// normal number has in front of its fraction.
pub const HIDDEN_BIT: u64 = 0x0010_0000_0000_0000;

/// The bits of the number one.
pub const ONE_BITS: u64 = 0x3ff0_0000_0000_0000;

/// How many units of two to the power -1074 make up the number one.
pub open spec fn units_per_one() -> nat {
    pow2(1074)
}

/// A binary64 number, held by the 64 bits of its interchange format: one sign
/// bit, eleven exponent bits and 52 fraction bits.
///
/// `==` and the hash go by the bits: two NaNs with the same payload are the
/// same `Scalar`, and the two zeros are not.
#[derive(Clone, Copy, Debug, PartialEq, Eq, Hash, Structural)]
pub struct Scalar {
    pub bits: u64,
}

impl Scalar {
    /// The bits without the sign.
    pub open spec fn magnitude(self) -> int {
        if self.bits >= SIGN_BIT {
            self.bits - SIGN_BIT
        } else {
            self.bits as int
        }
    }

    /// The exponent field.
    pub open spec fn biased_exponent(self) -> int {
        self.magnitude() / (HIDDEN_BIT as int)
    }

    /// The fraction field.
    pub open spec fn fraction(self) -> int {
        self.magnitude() % (HIDDEN_BIT as int)
    }

    /// The size of the number in units of two to the power -1074. For an
    /// infinity this is two to the power 2098, which is above every finite
    /// number; for a NaN it means nothing.
    pub open spec fn units(self) -> nat {
        if self.biased_exponent() == 0 {
            self.fraction() as nat
        } else {
            ((HIDDEN_BIT + self.fraction()) * pow2((self.biased_exponent() - 1) as nat)) as nat
        }
    }

    /// The number in units of two to the power -1074. Both zeros have the
    /// value zero.
    pub open spec fn value(self) -> int {
        if self.spec_is_sign_negative() {
            -(self.units() as int)
        } else {
            self.units() as int
        }
    }

    /// The sign bit is set: the number is below zero, or a zero, an infinity
    /// or a NaN with that sign.
    pub open spec fn spec_is_sign_negative(self) -> bool {
        self.bits >= SIGN_BIT
    }

    /// The bits are no number.
    pub open spec fn spec_is_nan(self) -> bool {
        self.magnitude() > INFINITY_BITS
    }

    /// The bits are a number and no infinity.
    pub open spec fn spec_is_finite(self) -> bool {
        self.magnitude() < INFINITY_BITS
    }

    /// Less than, as binary64 numbers compare: false where either is a NaN.
    pub open spec fn spec_lt(self, other: Scalar) -> bool {
        !self.spec_is_nan() && !other.spec_is_nan() && self.value() < other.value()
    }

    /// Less than or equal, as binary64 numbers compare: false where either is
    /// a NaN.
    pub open spec fn spec_le(self, other: Scalar) -> bool {
        !self.spec_is_nan() && !other.spec_is_nan() && self.value() <= other.value()
    }

    /// The number is the whole number `n`.
    pub open spec fn denotes(self, n: int) -> bool {
        !self.spec_is_nan() && self.value() == n * units_per_one()
    }

    /// The number lies between the whole numbers `low` and `high`, both
    /// included.
    pub open spec fn is_within(self, low: int, high: int) -> bool {
        !self.spec_is_nan() && low * units_per_one() <= self.value() <= high * units_per_one()
    }

    /// The number zero, with the sign bit clear.
    pub open spec fn spec_zero() -> Scalar {
        Scalar { bits: 0 }
    }

    /// The number one.
    pub open spec fn spec_one() -> Scalar {
        Scalar { bits: ONE_BITS }
    }

    /// The number zero, with the sign bit clear.
    #[verifier::when_used_as_spec(spec_zero)]
    pub fn zero() -> (r: Scalar)
        ensures
            r == Self::spec_zero(),
    {
        Scalar { bits: 0 }
    }

    /// The number one.
    #[verifier::when_used_as_spec(spec_one)]
    pub fn one() -> (r: Scalar)
        ensures
            r == Self::spec_one(),
    {
        Scalar { bits: ONE_BITS }
    }

    /// The number with these bits.
    pub fn from_bits(bits: u64) -> (r: Scalar)
        ensures
            r.bits == bits,
    {
        Scalar { bits }
    }

    /// The bits of the number.
    pub fn to_bits(self) -> (r: u64)
        ensures
            r == self.bits,
    {
        self.bits
    }

    /// The bits without the sign.
    pub fn abs_bits(self) -> (r: u64)
        ensures
            r == self.magnitude(),
    {
        if self.bits >= SIGN_BIT {
            self.bits - SIGN_BIT
        } else {
            self.bits
        }
    }

    /// Whether the sign bit is set.
    #[verifier::when_used_as_spec(spec_is_sign_negative)]
    pub fn is_sign_negative(self) -> (r: bool)
        ensures
            r == self.spec_is_sign_negative(),
    {
        self.bits >= SIGN_BIT
    }

    /// Whether the bits are no number.
    #[verifier::when_used_as_spec(spec_is_nan)]
    pub fn is_nan(self) -> (r: bool)
        ensures
            r == self.spec_is_nan(),
    {
        self.abs_bits() > INFINITY_BITS
    }

    /// Whether the bits are a number and no infinity.
    #[verifier::when_used_as_spec(spec_is_finite)]
    pub fn is_finite(self) -> (r: bool)
        ensures
            r == self.spec_is_finite(),
    {
        self.abs_bits() < INFINITY_BITS
    }

    /// Whether the number is less than `other`.
    #[verifier::when_used_as_spec(spec_lt)]
    pub fn lt(self, other: Scalar) -> (r: bool)
        ensures
            r == self.spec_lt(other),
    {
        if self.is_nan() || other.is_nan() {
            return false;
        }
        let a: u64 = self.abs_bits();
        let b: u64 = other.abs_bits();
        proof {
            lemma_units_follow_magnitude(self, other);
            lemma_units_follow_magnitude(Scalar { bits: 0 }, self);
            lemma_units_follow_magnitude(Scalar { bits: 0 }, other);
        }
        if self.bits >= SIGN_BIT {
            if other.bits >= SIGN_BIT {
                b < a
            } else {
                a != 0 || b != 0
            }
        } else {
            other.bits < SIGN_BIT && a < b
        }
    }

    /// Whether the number is less than or equal to `other`.
    #[verifier::when_used_as_spec(spec_le)]
    pub fn le(self, other: Scalar) -> (r: bool)
        ensures
            r == self.spec_le(other),
    {
        if self.is_nan() || other.is_nan() {
            return false;
        }
        !other.lt(self)
    }
}

/// What `bound` gives: `max` where `val` is above it, else `min` where `val`
/// is below it, else `val` itself. A NaN is above and below nothing, and stays.
pub open spec fn spec_bound(min: Scalar, val: Scalar, max: Scalar) -> Scalar {
    if max.spec_lt(val) {
        max
    } else if val.spec_lt(min) {
        min
    } else {
        val
    }
}

/// Brings `val` into the range from `min` to `max`.
pub fn bound(min: Scalar, val: Scalar, max: Scalar) -> (r: Scalar)
    ensures
        r == spec_bound(min, val, max),
        min.spec_le(max) && !val.spec_is_nan() ==> min.spec_le(r) && r.spec_le(max),
        min.spec_le(val) && val.spec_le(max) ==> r == val,
{
    if max.lt(val) {
        max
    } else if val.lt(min) {
        min
    } else {
        val
    }
}

/// A finite number that is not below zero.
#[derive(Clone, Copy, Debug, PartialEq, Eq, Hash)]
pub struct PositiveScalar {
    value: Scalar,
}

impl View for PositiveScalar {
    type V = Scalar;

    closed spec fn view(&self) -> Scalar {
        self.value
    }
}

impl PositiveScalar {
    #[verifier::type_invariant]
    spec fn well_formed(self) -> bool {
        Self::accepts(self.value)
    }

    /// The numbers that a `PositiveScalar` can hold: zero of either sign and
    /// every finite number above zero.
    pub open spec fn accepts(n: Scalar) -> bool {
        n.spec_is_finite() && n.value() >= 0
    }

    /// The `PositiveScalar` that holds `n`.
    pub closed spec fn holding(n: Scalar) -> PositiveScalar {
        PositiveScalar { value: n }
    }

    /// Holds `n` where it is finite and not below zero.
    pub fn new(n: Scalar) -> (r: Option<PositiveScalar>)
        ensures
            r == if Self::accepts(n) {
                Some(Self::holding(n))
            } else {
                None
            },
            r matches Some(p) ==> p@ == n,
    {
        if n.is_finite() && Scalar::zero().le(n) {
            Some(PositiveScalar { value: n })
        } else {
            None
        }
    }

    /// The number one.
    pub fn one() -> (r: PositiveScalar)
        ensures
            r == Self::holding(Scalar::spec_one()),
            r@ == Scalar::spec_one(),
    {
        proof {
            lemma_one_is_one();
        }
        PositiveScalar { value: Scalar::one() }
    }

    /// The number that is held.
    pub fn get(&self) -> (r: Scalar)
        ensures
            r == self@,
            Self::accepts(r),
    {
        proof {
            use_type_invariant(self);
        }
        self.value
    }

    /// A `PositiveScalar` is the number it holds, and nothing more.
    pub proof fn lemma_holding(n: Scalar, p: PositiveScalar)
        ensures
            Self::holding(n)@ == n,
            Self::holding(p@) == p,
    {
    }
}

/// The bits `ONE_BITS` are the number one.
pub proof fn lemma_one_is_one()
    ensures
        Scalar::spec_one().denotes(1),
        Scalar::spec_one().spec_is_finite(),
{
    lemma2_to64_rest();
    lemma_pow2_adds(52, 1022);
}

/// The larger magnitude is the larger size: on the bits without the sign, the
/// order of the integers is the order of the numbers.
pub proof fn lemma_units_follow_magnitude(a: Scalar, b: Scalar)
    ensures
        a.magnitude() < b.magnitude() <==> a.units() < b.units(),
        a.magnitude() == b.magnitude() <==> a.units() == b.units(),
{
    if a.magnitude() < b.magnitude() {
        lemma_units_increase(a, b);
    } else if b.magnitude() < a.magnitude() {
        lemma_units_increase(b, a);
    }
}

proof fn lemma_units_increase(a: Scalar, b: Scalar)
    requires
        a.magnitude() < b.magnitude(),
    ensures
        a.units() < b.units(),
{
    let h: int = HIDDEN_BIT as int;
    let ea: int = a.biased_exponent();
    let eb: int = b.biased_exponent();
    let fa: int = a.fraction();
    let fb: int = b.fraction();
    assert(ea <= eb);
    if ea == eb {
        if ea > 0 {
            let p: int = pow2((ea - 1) as nat) as int;
            lemma_pow2_pos((ea - 1) as nat);
            assert((h + fa) * p < (h + fb) * p) by (nonlinear_arith)
                requires
                    fa < fb,
                    p > 0,
            ;
        }
    } else {
        let pb: int = pow2((eb - 1) as nat) as int;
        lemma_pow2_pos((eb - 1) as nat);
        assert(h * pb <= (h + fb) * pb) by (nonlinear_arith)
            requires
                fb >= 0,
                pb > 0,
        ;
        if ea == 0 {
            assert(h <= h * pb) by (nonlinear_arith)
                requires
                    h > 0,
                    pb >= 1,
            ;
        } else {
            let pa: int = pow2((ea - 1) as nat) as int;
            lemma_pow2_pos((ea - 1) as nat);
            lemma_pow2_unfold(ea as nat);
            if ea < eb - 1 {
                lemma_pow2_strictly_increases(ea as nat, (eb - 1) as nat);
            }
            assert((h + fa) * pa < h * (2 * pa)) by (nonlinear_arith)
                requires
                    fa < h,
                    pa > 0,
            ;
            assert(h * (2 * pa) <= h * pb) by (nonlinear_arith)
                requires
                    h > 0,
                    2 * pa <= pb,
            ;
        }
    }
}

} // verus!
