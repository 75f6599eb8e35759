//! Ranges of scalars, used to bound ray parameters and colour channels.
use vstd::prelude::*;
use crate::scalar::Scalar;

verus! {

/// The range from `min` to `max`. Nothing enforces `min <= max`: a range built
/// the other way round, or on a NaN, is simply empty.
#[derive(Debug, Clone, Copy)]
pub struct Interval {
    pub min: Scalar,
    pub max: Scalar,
}

impl Interval {
    pub open spec fn spec_min(&self) -> Scalar {
        self.min
    }

    pub open spec fn spec_max(&self) -> Scalar {
        self.max
    }

    pub open spec fn spec_contains(&self, x: Scalar) -> bool {
        self.min.le(x) && x.le(self.max)
    }

    pub open spec fn spec_surrounds(&self, x: Scalar) -> bool {
        self.min.lt(x) && x.lt(self.max)
    }

    pub open spec fn spec_clamp(&self, x: Scalar) -> Scalar {
        if x.lt(self.min) {
            self.min
        } else if x.gt(self.max) {
            self.max
        } else {
            x
        }
    }

    /// Both ends are numbers and the lower one is not above the upper one.
    pub open spec fn ordered(&self) -> bool {
        self.min.le(self.max)
    }

    pub fn new(min: Scalar, max: Scalar) -> (i: Interval)
        ensures
            i == (Interval { min, max }),
    {
        Interval { min, max }
    }

    #[verifier::when_used_as_spec(spec_max)]
    pub fn max(&self) -> (r: Scalar)
        ensures
            r == self.max,
    {
        self.max
    }

    #[verifier::when_used_as_spec(spec_min)]
    pub fn min(&self) -> (r: Scalar)
        ensures
            r == self.min,
    {
        self.min
    }

    /// Whether `min <= x <= max`.
    #[verifier::when_used_as_spec(spec_contains)]
    pub fn contains(&self, x: Scalar) -> (r: bool)
        ensures
            r == self.contains(x),
    {
        self.min.le(x) && x.le(self.max)
    }

    /// Whether `min < x < max`.
    #[verifier::when_used_as_spec(spec_surrounds)]
    pub fn surrounds(&self, x: Scalar) -> (r: bool)
        ensures
            r == self.surrounds(x),
    {
        self.min.lt(x) && x.lt(self.max)
    }

    /// Restricts `x` to the range: `min` for a value below it, `max` for one
    /// above it, and `x` itself otherwise, a NaN included.
    #[verifier::when_used_as_spec(spec_clamp)]
    pub fn clamp(&self, x: Scalar) -> (r: Scalar)
        ensures
            r == self.clamp(x),
            self.ordered() && !x.is_nan() ==> self.contains(r),
    {
        if x.lt(self.min) {
            self.min
        } else if x.gt(self.max) {
            self.max
        } else {
            x
        }
    }
}

/// On a range with `min <= max`, clamping a number never leaves the range,
/// and leaves a member of the range as it is.
pub proof fn lemma_clamp_within(i: Interval, x: Scalar)
    requires
        i.ordered(),
        !x.is_nan(),
    ensures
        i.contains(i.clamp(x)),
        i.contains(x) ==> i.clamp(x) == x,
{
}

/// The ends of a range with `min <= max` belong to it, and are not inside it.
pub proof fn lemma_interval_ends(i: Interval)
    requires
        i.ordered(),
    ensures
        i.contains(i.max),
        i.contains(i.min),
        !i.surrounds(i.max),
        !i.surrounds(i.min),
{
}

} // verus!
