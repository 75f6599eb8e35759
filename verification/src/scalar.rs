//! A real number held as an IEEE 754 binary64 bit pattern.
//!
//! The pattern is read arithmetically: the top bit is the sign, the remaining
//! 63 bits are the magnitude. Magnitudes above that of infinity are NaN. On the
//! other patterns the IEEE order is the order of the signed magnitudes, with
//! the two zeros equal.
use vstd::prelude::*;
use vstd::arithmetic::power2::lemma_pow2_pos;
use vstd::arithmetic::power2::lemma_pow2_strictly_increases;
use vstd::arithmetic::power2::lemma_pow2_unfold;
use vstd::arithmetic::power2::pow2;

verus! {

/// Weight of the sign bit.
pub const SIGN: u64 = 0x8000_0000_0000_0000;

/// Magnitude of the two infinities.
pub const INF: u64 = 0x7FF0_0000_0000_0000;

/// Weight of the lowest exponent bit: `2^52`, which is also the hidden bit
/// of a normal number's significand.
pub const HIDDEN: u64 = 0x0010_0000_0000_0000;

/// Bit pattern of `1`.
pub const ONE: u64 = 0x3FF0_0000_0000_0000;

/// A binary64 value, identified by its bits.
#[derive(Clone, Copy, Debug)]
pub struct Scalar {
    pub bits: u64,
}

impl Scalar {
    /// The lower 63 bits of the pattern.
    pub open spec fn magnitude(self) -> int {
        if self.bits >= SIGN {
            self.bits - SIGN
        } else {
            self.bits as int
        }
    }

    /// The signed magnitude: the position of a non-NaN value in the IEEE order.
    pub open spec fn rank(self) -> int {
        if self.bits >= SIGN {
            -self.magnitude()
        } else {
            self.magnitude()
        }
    }

    /// The exponent field: the magnitude's upper 11 bits.
    pub open spec fn exponent(self) -> int {
        self.magnitude() / (HIDDEN as int)
    }

    /// The fraction field: the magnitude's lower 52 bits.
    pub open spec fn fraction(self) -> int {
        self.magnitude() % (HIDDEN as int)
    }

    /// Whether the value is a number other than an infinity.
    pub open spec fn finite(self) -> bool {
        self.magnitude() < INF
    }

    /// The absolute value of a finite scalar in units of `2^-1074`, the
    /// spacing of the subnormal numbers: the fraction alone where the
    /// exponent field is zero, else the fraction with the hidden bit,
    /// doubled once for every step of the exponent above one.
    pub open spec fn numerator(self) -> int {
        if self.exponent() == 0 {
            self.fraction()
        } else {
            (HIDDEN + self.fraction()) * pow2((self.exponent() - 1) as nat)
        }
    }

    /// The value of a finite scalar in units of `2^-1074`.
    pub open spec fn scaled(self) -> int {
        if self.bits >= SIGN {
            -self.numerator()
        } else {
            self.numerator()
        }
    }

    pub open spec fn spec_is_nan(self) -> bool {
        self.magnitude() > INF
    }

    pub open spec fn spec_is_sign_negative(self) -> bool {
        self.bits >= SIGN
    }

    pub open spec fn spec_lt(self, other: Scalar) -> bool {
        !self.is_nan() && !other.is_nan() && self.rank() < other.rank()
    }

    pub open spec fn spec_le(self, other: Scalar) -> bool {
        !self.is_nan() && !other.is_nan() && self.rank() <= other.rank()
    }

    pub open spec fn spec_gt(self, other: Scalar) -> bool {
        other.lt(self)
    }

    pub open spec fn spec_ge(self, other: Scalar) -> bool {
        other.le(self)
    }

    pub open spec fn spec_equals(self, other: Scalar) -> bool {
        !self.is_nan() && !other.is_nan() && self.rank() == other.rank()
    }

    pub open spec fn spec_neg(self) -> Scalar {
        if self.bits >= SIGN {
            Scalar { bits: (self.bits - SIGN) as u64 }
        } else {
            Scalar { bits: (self.bits + SIGN) as u64 }
        }
    }

    pub open spec fn spec_abs(self) -> Scalar {
        Scalar { bits: self.magnitude() as u64 }
    }

    pub open spec fn spec_max(self, other: Scalar) -> Scalar {
        if self.is_nan() {
            other
        } else if other.is_nan() {
            self
        } else if self.lt(other) {
            other
        } else {
            self
        }
    }

    pub open spec fn spec_min(self, other: Scalar) -> Scalar {
        if self.is_nan() {
            other
        } else if other.is_nan() {
            self
        } else if other.lt(self) {
            other
        } else {
            self
        }
    }

    pub open spec fn spec_zero() -> Scalar {
        Scalar { bits: 0 }
    }

    pub open spec fn spec_one() -> Scalar {
        Scalar { bits: ONE }
    }

    pub open spec fn spec_infinity() -> Scalar {
        Scalar { bits: INF }
    }

    /// The value with the given bit pattern.
    pub fn from_bits(bits: u64) -> (s: Scalar)
        ensures
            s.bits == bits,
    {
        Scalar { bits }
    }

    /// The bit pattern of the value.
    pub fn to_bits(self) -> (bits: u64)
        ensures
            bits == self.bits,
    {
        self.bits
    }

    /// Positive zero.
    #[verifier::when_used_as_spec(spec_zero)]
    pub fn zero() -> (s: Scalar)
        ensures
            s == Scalar::zero(),
    {
        Scalar { bits: 0 }
    }

    /// The value one.
    #[verifier::when_used_as_spec(spec_one)]
    pub fn one() -> (s: Scalar)
        ensures
            s == Scalar::one(),
    {
        Scalar { bits: ONE }
    }

    /// Positive infinity.
    #[verifier::when_used_as_spec(spec_infinity)]
    pub fn infinity() -> (s: Scalar)
        ensures
            s == Scalar::infinity(),
    {
        Scalar { bits: INF }
    }

    fn mag(self) -> (m: u64)
        ensures
            m == self.magnitude(),
    {
        if self.bits >= SIGN {
            self.bits - SIGN
        } else {
            self.bits
        }
    }

    /// Whether the value is a NaN.
    #[verifier::when_used_as_spec(spec_is_nan)]
    pub fn is_nan(self) -> (r: bool)
        ensures
            r == self.is_nan(),
    {
        self.mag() > INF
    }

    /// Whether the sign bit is set, which it may be on a zero or a NaN too.
    #[verifier::when_used_as_spec(spec_is_sign_negative)]
    pub fn is_sign_negative(self) -> (r: bool)
        ensures
            r == self.is_sign_negative(),
    {
        self.bits >= SIGN
    }

    /// IEEE `<`: false when either side is NaN.
    #[verifier::when_used_as_spec(spec_lt)]
    pub fn lt(self, other: Scalar) -> (r: bool)
        ensures
            r == self.lt(other),
    {
        if self.is_nan() || other.is_nan() {
            return false;
        }
        let a: u64 = self.mag();
        let b: u64 = other.mag();
        if self.bits >= SIGN {
            if other.bits >= SIGN {
                b < a
            } else {
                a > 0 || b > 0
            }
        } else {
            if other.bits >= SIGN {
                false
            } else {
                a < b
            }
        }
    }

    /// IEEE `==`: false when either side is NaN, true of the two zeros.
    #[verifier::when_used_as_spec(spec_equals)]
    pub fn equals(self, other: Scalar) -> (r: bool)
        ensures
            r == self.equals(other),
    {
        if self.is_nan() || other.is_nan() {
            return false;
        }
        let a: u64 = self.mag();
        let b: u64 = other.mag();
        if (self.bits >= SIGN) == (other.bits >= SIGN) {
            a == b
        } else {
            a == 0 && b == 0
        }
    }

    /// IEEE `<=`.
    #[verifier::when_used_as_spec(spec_le)]
    pub fn le(self, other: Scalar) -> (r: bool)
        ensures
            r == self.le(other),
    {
        self.lt(other) || self.equals(other)
    }

    /// IEEE `>`.
    #[verifier::when_used_as_spec(spec_gt)]
    pub fn gt(self, other: Scalar) -> (r: bool)
        ensures
            r == self.gt(other),
    {
        other.lt(self)
    }

    /// IEEE `>=`.
    #[verifier::when_used_as_spec(spec_ge)]
    pub fn ge(self, other: Scalar) -> (r: bool)
        ensures
            r == self.ge(other),
    {
        other.le(self)
    }

    /// The value with its sign bit flipped; a NaN stays a NaN.
    #[verifier::when_used_as_spec(spec_neg)]
    pub fn neg(self) -> (r: Scalar)
        ensures
            r == self.neg(),
    {
        if self.bits >= SIGN {
            Scalar { bits: self.bits - SIGN }
        } else {
            Scalar { bits: self.bits + SIGN }
        }
    }

    /// The value with its sign bit cleared.
    #[verifier::when_used_as_spec(spec_abs)]
    pub fn abs(self) -> (r: Scalar)
        ensures
            r == self.abs(),
    {
        Scalar { bits: self.mag() }
    }

    /// The larger of two values; where one is NaN, the other.
    #[verifier::when_used_as_spec(spec_max)]
    pub fn max(self, other: Scalar) -> (r: Scalar)
        ensures
            r == self.max(other),
    {
        if self.is_nan() {
            other
        } else if other.is_nan() {
            self
        } else if self.lt(other) {
            other
        } else {
            self
        }
    }

    /// The smaller of two values; where one is NaN, the other.
    #[verifier::when_used_as_spec(spec_min)]
    pub fn min(self, other: Scalar) -> (r: Scalar)
        ensures
            r == self.min(other),
    {
        if self.is_nan() {
            other
        } else if other.is_nan() {
            self
        } else if other.lt(self) {
            other
        } else {
            self
        }
    }
}

impl PartialEq for Scalar {
    fn eq(&self, other: &Scalar) -> (r: bool) {
        self.equals(*other)
    }
}

impl vstd::std_specs::cmp::PartialEqSpecImpl for Scalar {
    open spec fn obeys_eq_spec() -> bool {
        true
    }

    open spec fn eq_spec(&self, other: &Scalar) -> bool {
        self.equals(*other)
    }
}

/// A larger magnitude encodes a larger absolute value.
pub proof fn lemma_numerator_increases(a: Scalar, b: Scalar)
    requires
        a.magnitude() < b.magnitude(),
    ensures
        0 <= a.numerator() < b.numerator(),
{
    let h = HIDDEN as int;
    let ea = a.exponent();
    let eb = b.exponent();
    let fa = a.fraction();
    let fb = b.fraction();
    assert(0 <= ea <= eb);
    if ea == eb {
        if ea > 0 {
            let p = pow2((ea - 1) as nat) as int;
            lemma_pow2_pos((ea - 1) as nat);
            assert(0 <= (h + fa) * p < (h + fb) * p) by (nonlinear_arith)
                requires
                    0 <= fa < fb,
                    h > 0,
                    p > 0,
            ;
        }
    } else {
        let pa = pow2(ea as nat) as int;
        let pb = pow2((eb - 1) as nat) as int;
        lemma_pow2_pos(ea as nat);
        if ea < eb - 1 {
            lemma_pow2_strictly_increases(ea as nat, (eb - 1) as nat);
        }
        assert(pa <= pb);
        assert(h * pa <= (h + fb) * pb) by (nonlinear_arith)
            requires
                0 < pa <= pb,
                h > 0,
                fb >= 0,
        ;
        if ea == 0 {
            assert(pow2(0) == 1) by {
                vstd::arithmetic::power2::lemma2_to64();
            }
            assert(h * pa == h) by (nonlinear_arith)
                requires
                    pa == 1,
            ;
        } else {
            let p = pow2((ea - 1) as nat) as int;
            lemma_pow2_pos((ea - 1) as nat);
            lemma_pow2_unfold(ea as nat);
            assert(pa == 2 * p);
            assert(0 <= (h + fa) * p < h * pa) by (nonlinear_arith)
                requires
                    0 <= fa < h,
                    p > 0,
                    pa == 2 * p,
            ;
        }
    }
}

/// On finite scalars the order and the equality that the comparisons
/// decide are those of the values themselves.
pub proof fn lemma_order_is_numeric(a: Scalar, b: Scalar)
    requires
        a.finite(),
        b.finite(),
    ensures
        a.lt(b) <==> a.scaled() < b.scaled(),
        a.le(b) <==> a.scaled() <= b.scaled(),
        a.equals(b) <==> a.scaled() == b.scaled(),
{
    let zero = Scalar { bits: 0 };
    if a.magnitude() < b.magnitude() {
        lemma_numerator_increases(a, b);
    }
    if b.magnitude() < a.magnitude() {
        lemma_numerator_increases(b, a);
    }
    if 0 < a.magnitude() {
        lemma_numerator_increases(zero, a);
    }
    if 0 < b.magnitude() {
        lemma_numerator_increases(zero, b);
    }
    assert(a.magnitude() == b.magnitude() ==> a.numerator() == b.numerator());
    assert(zero.numerator() == 0);
    assert(a.magnitude() == 0 ==> a.numerator() == 0);
    assert(b.magnitude() == 0 ==> b.numerator() == 0);
}

/// Negation mirrors the value, and the absolute value drops its sign.
pub proof fn lemma_neg_abs_numeric(a: Scalar)
    ensures
        a.neg().is_nan() == a.is_nan(),
        a.abs().is_nan() == a.is_nan(),
        a.neg().scaled() == -a.scaled(),
        a.abs().scaled() == a.numerator(),
        a.neg().neg() == a,
{
}

/// An infinity lies beyond every finite scalar, on its own side.
pub proof fn lemma_infinity_bounds(a: Scalar)
    requires
        a.finite(),
    ensures
        a.lt(Scalar::infinity()),
        Scalar::infinity().neg().lt(a),
{
}

/// The patterns of zero and one stand for the numbers zero and one.
pub proof fn lemma_zero_and_one()
    ensures
        Scalar::zero().scaled() == 0,
        Scalar::one().scaled() == pow2(1074),
{
    let one = Scalar::one();
    assert(one.exponent() == 1023);
    assert(one.fraction() == 0);
    vstd::arithmetic::power2::lemma_pow2_adds(52, 1022);
    vstd::arithmetic::power2::lemma2_to64_rest();
    assert(pow2(52) == HIDDEN);
}

} // verus!
