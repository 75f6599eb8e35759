//! Uniform random scalars.
use vstd::prelude::*;
use vstd::arithmetic::power2::lemma2_to64;
use vstd::arithmetic::power2::lemma2_to64_rest;
use vstd::arithmetic::power2::lemma_pow2_strictly_increases;
use vstd::arithmetic::power2::lemma_pow2_unfold;
use vstd::arithmetic::power2::pow2;
use crate::scalar::Scalar;
use crate::scalar::HIDDEN;

verus! {

/// The number of low bits of a random word that are not used.
pub const DISCARDED: u64 = 2048;

/// Sixty-four random bits from `rand::random`, which draws them from the
/// generator of the current thread. Nothing is claimed of them.
#[verifier::external_body]
fn random_bits() -> (bits: u64) {
    rand::random::<u64>()
}

/// Whether `r` is the scalar `k / 2^53`, where `k` is `bits` without its
/// lowest eleven bits: a finite scalar without a sign, whose value in units
/// of `2^-1074` is `k * 2^1021`.
pub open spec fn is_fraction_of(r: Scalar, bits: u64) -> bool {
    &&& r.finite()
    &&& !r.is_sign_negative()
    &&& r.scaled() == (bits / DISCARDED) * pow2(1021)
}

/// The scalar `k / 2^53`, where `k` is `bits` without its lowest eleven
/// bits: the uniform map from random words to `[0, 1)`, which is exact.
pub fn from_fraction(bits: u64) -> (r: Scalar)
    ensures
        is_fraction_of(r, bits),
        Scalar::zero().le(r) && r.lt(Scalar::one()),
{
    let k: u64 = bits / DISCARDED;
    proof {
        lemma2_to64();
        lemma2_to64_rest();
    }
    if k == 0 {
        return Scalar::zero();
    }
    let mut m: u64 = k;
    let mut e: u64 = 1022;
    while m < HIDDEN
        invariant
            1 <= m < 2 * HIDDEN,
            e <= 1022,
            m >= pow2((1022 - e) as nat),
            e >= 1 ==> m * pow2((e - 1) as nat) == k * pow2(1021),
            pow2(52) == HIDDEN,
        decreases 2 * HIDDEN - m,
    {
        proof {
            if 1022 - e >= 52 {
                if 1022 - e > 52 {
                    lemma_pow2_strictly_increases(52, (1022 - e) as nat);
                }
                assert(false);
            }
            lemma_pow2_unfold((e - 1) as nat);
            lemma_pow2_unfold((1022 - e + 1) as nat);
            let p = pow2((e - 2) as nat) as int;
            assert((2 * m) * p == m * (2 * p)) by (nonlinear_arith);
        }
        m = 2 * m;
        e = e - 1;
    }
    proof {
        if 1022 - e >= 53 {
            lemma_pow2_strictly_increases(53, (1022 - e) as nat);
            assert(false);
        }
        assert(e >= 970);
    }
    let r = Scalar::from_bits(e * HIDDEN + (m - HIDDEN));
    proof {
        assert(r.magnitude() == e * HIDDEN + (m - HIDDEN));
        assert(r.exponent() == e);
        assert(r.fraction() == m - HIDDEN);
        assert(r.numerator() == m * pow2((e - 1) as nat));
    }
    r
}

/// A scalar drawn uniformly from `[0, 1)`: the fraction of a random word,
/// and so one of the `2^53` multiples of `2^-53` in that range. Which one
/// it is rests with the generator.
pub fn uniform() -> (r: Scalar)
    ensures
        exists|bits: u64| #[trigger] is_fraction_of(r, bits),
        Scalar::zero().le(r) && r.lt(Scalar::one()),
{
    let bits = random_bits();
    from_fraction(bits)
}

} // verus!
