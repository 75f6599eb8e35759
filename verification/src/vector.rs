//! Triples of scalars, used for points, directions and colours alike.
use vstd::prelude::*;
use crate::random::uniform;
use crate::scalar::Scalar;

verus! {

/// Bit pattern of the threshold `1e-8` under which a component counts as zero.
pub const NEAR_ZERO: u64 = 0x3E45_798E_E230_8C3A;

/// Three components, in the order x, y, z (or red, green, blue).
#[derive(Debug, Clone, Copy)]
pub struct Vec3 {
    pub e: [Scalar; 3],
}

impl Vec3 {
    /// The vector with the given components.
    pub open spec fn xyz(x: Scalar, y: Scalar, z: Scalar) -> Vec3 {
        Vec3 { e: [x, y, z] }
    }

    pub open spec fn spec_x(self) -> Scalar {
        self.e[0]
    }

    pub open spec fn spec_y(self) -> Scalar {
        self.e[1]
    }

    pub open spec fn spec_z(self) -> Scalar {
        self.e[2]
    }

    pub open spec fn spec_zeros() -> Vec3 {
        Vec3::xyz(Scalar::zero(), Scalar::zero(), Scalar::zero())
    }

    pub open spec fn spec_ones() -> Vec3 {
        Vec3::xyz(Scalar::one(), Scalar::one(), Scalar::one())
    }

    pub open spec fn spec_neg(self) -> Vec3 {
        Vec3::xyz(self.x().neg(), self.y().neg(), self.z().neg())
    }

    pub open spec fn spec_near_zero(self) -> bool {
        let s = Scalar { bits: NEAR_ZERO };
        self.x().abs().lt(s) && self.y().abs().lt(s) && self.z().abs().lt(s)
    }

    /// Componentwise IEEE equality: what `==` means on vectors.
    pub open spec fn equals(self, other: Vec3) -> bool {
        self.x().equals(other.x()) && self.y().equals(other.y()) && self.z().equals(other.z())
    }

    pub open spec fn spec_random_in_unit_sphere(p: Vec3, length_squared: Scalar, unit: Vec3) -> Vec3 {
        if length_squared.lt(Scalar::one()) {
            p
        } else {
            unit
        }
    }

    pub open spec fn spec_random_in_unit_disk(p: Vec3, length_squared: Scalar, unit: Vec3) -> Vec3 {
        if length_squared.lt(Scalar::one()) {
            Vec3::xyz(p.x(), p.y(), Scalar::zero())
        } else {
            unit
        }
    }

    pub open spec fn spec_random_on_hemisphere(self, on_unit_sphere: Vec3, facing: Scalar) -> Vec3 {
        if facing.gt(Scalar::zero()) {
            on_unit_sphere
        } else {
            on_unit_sphere.neg()
        }
    }

    pub fn new(e: [Scalar; 3]) -> (v: Vec3)
        ensures
            v.e == e,
    {
        Vec3 { e }
    }

    pub fn from_xyz(x: Scalar, y: Scalar, z: Scalar) -> (v: Vec3)
        ensures
            v == Vec3::xyz(x, y, z),
    {
        Vec3 { e: [x, y, z] }
    }

    pub fn from_rgb(r: Scalar, g: Scalar, b: Scalar) -> (v: Vec3)
        ensures
            v == Vec3::xyz(r, g, b),
    {
        Vec3 { e: [r, g, b] }
    }

    #[verifier::when_used_as_spec(spec_x)]
    pub fn x(self) -> (r: Scalar)
        ensures
            r == self.x(),
    {
        self.e[0]
    }

    #[verifier::when_used_as_spec(spec_y)]
    pub fn y(self) -> (r: Scalar)
        ensures
            r == self.y(),
    {
        self.e[1]
    }

    #[verifier::when_used_as_spec(spec_z)]
    pub fn z(self) -> (r: Scalar)
        ensures
            r == self.z(),
    {
        self.e[2]
    }

    /// The origin, which is also black.
    #[verifier::when_used_as_spec(spec_zeros)]
    pub fn zeros() -> (v: Vec3)
        ensures
            v == Vec3::zeros(),
    {
        Vec3::from_xyz(Scalar::zero(), Scalar::zero(), Scalar::zero())
    }

    /// The vector of ones, which is also white.
    #[verifier::when_used_as_spec(spec_ones)]
    pub fn ones() -> (v: Vec3)
        ensures
            v == Vec3::ones(),
    {
        Vec3::from_xyz(Scalar::one(), Scalar::one(), Scalar::one())
    }

    /// Negation, component by component.
    #[verifier::when_used_as_spec(spec_neg)]
    pub fn neg(self) -> (v: Vec3)
        ensures
            v == self.neg(),
    {
        Vec3::from_xyz(self.x().neg(), self.y().neg(), self.z().neg())
    }

    /// Whether every component lies strictly within `1e-8` of zero, so that
    /// the vector is too short to serve as a direction.
    #[verifier::when_used_as_spec(spec_near_zero)]
    pub fn near_zero(self) -> (r: bool)
        ensures
            r == self.near_zero(),
    {
        let s = Scalar::from_bits(NEAR_ZERO);
        self.x().abs().lt(s) && self.y().abs().lt(s) && self.z().abs().lt(s)
    }

    /// Whether every component lies in `[0, 1)`.
    pub open spec fn in_unit_cube(self) -> bool {
        &&& Scalar::zero().le(self.x()) && self.x().lt(Scalar::one())
        &&& Scalar::zero().le(self.y()) && self.y().lt(Scalar::one())
        &&& Scalar::zero().le(self.z()) && self.z().lt(Scalar::one())
    }

    /// A vector whose components are drawn uniformly from `[0, 1)`, each on
    /// its own, in the order x, y, z.
    pub fn random() -> (v: Vec3)
        ensures
            v.in_unit_cube(),
    {
        let x = uniform();
        let y = uniform();
        let z = uniform();
        Vec3::from_xyz(x, y, z)
    }

    /// A point of the unit ball from a sample `p` of the cube round it, of
    /// which `length_squared` is the squared length and `unit` the unit
    /// vector: the sample itself where it lies strictly inside the ball,
    /// else its unit vector. No second sample is drawn.
    #[verifier::when_used_as_spec(spec_random_in_unit_sphere)]
    pub fn random_in_unit_sphere(p: Vec3, length_squared: Scalar, unit: Vec3) -> (v: Vec3)
        ensures
            v == Vec3::random_in_unit_sphere(p, length_squared, unit),
    {
        if length_squared.lt(Scalar::one()) {
            p
        } else {
            unit
        }
    }

    /// A point of the unit disk in the plane `z = 0` from a sample `p` of the
    /// cube, of which only `x` and `y` count: `length_squared` and `unit` are
    /// the squared length and the unit vector of `(x, y, 0)`. The policy is
    /// that of the ball.
    #[verifier::when_used_as_spec(spec_random_in_unit_disk)]
    pub fn random_in_unit_disk(p: Vec3, length_squared: Scalar, unit: Vec3) -> (v: Vec3)
        ensures
            v == Vec3::random_in_unit_disk(p, length_squared, unit),
    {
        if length_squared.lt(Scalar::one()) {
            Vec3::from_xyz(p.x(), p.y(), Scalar::zero())
        } else {
            unit
        }
    }

    /// The unit vector `on_unit_sphere`, turned into the hemisphere round
    /// `self`: reversed unless `facing`, its inner product with `self`, is
    /// above zero.
    #[verifier::when_used_as_spec(spec_random_on_hemisphere)]
    pub fn random_on_hemisphere(self, on_unit_sphere: Vec3, facing: Scalar) -> (v: Vec3)
        ensures
            v == self.random_on_hemisphere(on_unit_sphere, facing),
    {
        if facing.gt(Scalar::zero()) {
            on_unit_sphere
        } else {
            on_unit_sphere.neg()
        }
    }
}

impl PartialEq for Vec3 {
    fn eq(&self, other: &Vec3) -> (r: bool) {
        self.x().equals(other.x()) && self.y().equals(other.y()) && self.z().equals(other.z())
    }
}

impl vstd::std_specs::cmp::PartialEqSpecImpl for Vec3 {
    open spec fn obeys_eq_spec() -> bool {
        true
    }

    open spec fn eq_spec(&self, other: &Vec3) -> bool {
        self.equals(*other)
    }
}

impl Default for Vec3 {
    fn default() -> (v: Vec3)
        ensures
            v == Vec3::zeros(),
    {
        Vec3::zeros()
    }
}

} // verus!
