//! Spheres, and the choice of the root at which a ray meets one.
use vstd::prelude::*;
use crate::hittable::HitRecord;
use crate::interval::Interval;
use crate::material::Material;
use crate::scalar::Scalar;
use crate::vector::Vec3;

verus! {

/// One root of the quadratic `a t^2 - 2 h t + c = 0` that a ray and a sphere
/// give rise to, with the geometry of the ray at that root.
#[derive(Debug, Clone, Copy)]
pub struct Crossing {
    /// The root itself: the ray parameter.
    pub t: Scalar,
    /// The point of the ray at `t`.
    pub p: Vec3,
    /// The normal of the sphere at `p`: `(p - center) / radius`.
    pub outward_normal: Vec3,
    /// The inner product of the ray's direction with `outward_normal`.
    pub facing: Scalar,
}

/// Both roots of the quadratic, with its discriminant `h^2 - a c`.
#[derive(Debug, Clone, Copy)]
pub struct Roots {
    pub discriminant: Scalar,
    /// The smaller root, `(h - sqrt(discriminant)) / a`.
    pub near: Crossing,
    /// The larger root, `(h + sqrt(discriminant)) / a`.
    pub far: Crossing,
}

/// A sphere of one material. The radius is never negative and never a NaN.
#[derive(Debug, Clone, Copy)]
pub struct Sphere {
    center: Vec3,
    radius: Scalar,
    mat: Material,
}

impl Sphere {
    #[verifier::type_invariant]
    spec fn radius_valid(self) -> bool {
        Scalar::zero().le(self.radius)
    }

    pub closed spec fn spec_center(&self) -> Vec3 {
        self.center
    }

    pub closed spec fn spec_radius(&self) -> Scalar {
        self.radius
    }

    pub closed spec fn spec_material(&self) -> Material {
        self.mat
    }

    /// The record of a hit of this sphere at the crossing `c`: the normal is
    /// turned against the ray, and the hit is front-facing when the ray runs
    /// against the outward normal.
    pub open spec fn record(&self, c: Crossing) -> HitRecord {
        HitRecord {
            p: c.p,
            normal: HitRecord::opposing(c.facing, c.outward_normal),
            t: c.t,
            front_face: c.facing.lt(Scalar::zero()),
            mat: self.material(),
        }
    }

    /// No hit on a negative discriminant; else the smaller root if the range
    /// has it, else the larger root if the range has it, else no hit.
    pub open spec fn spec_hit(&self, r_t: Interval, roots: &Roots) -> Option<HitRecord> {
        if roots.discriminant.lt(Scalar::zero()) {
            None
        } else if r_t.contains(roots.near.t) {
            Some(self.record(roots.near))
        } else if r_t.contains(roots.far.t) {
            Some(self.record(roots.far))
        } else {
            None
        }
    }

    /// A sphere round `center`. A negative radius, or a NaN, counts as zero.
    pub fn new(center: Vec3, radius: Scalar, mat: Material) -> (s: Sphere)
        ensures
            s.center() == center,
            s.radius() == radius.max(Scalar::zero()),
            s.material() == mat,
            Scalar::zero().le(s.radius()),
    {
        let radius = radius.max(Scalar::zero());
        Sphere { center, radius, mat }
    }

    #[verifier::when_used_as_spec(spec_center)]
    pub fn center(&self) -> (c: Vec3)
        ensures
            c == self.center(),
    {
        self.center
    }

    #[verifier::when_used_as_spec(spec_radius)]
    pub fn radius(&self) -> (r: Scalar)
        ensures
            r == self.radius(),
            Scalar::zero().le(r),
    {
        proof {
            use_type_invariant(self);
        }
        self.radius
    }

    #[verifier::when_used_as_spec(spec_material)]
    pub fn material(&self) -> (m: Material)
        ensures
            m == self.material(),
    {
        self.mat
    }

    /// The hit of a ray on this sphere within the range `r_t` of the ray
    /// parameter, given the roots of the ray's quadratic for this sphere.
    #[verifier::when_used_as_spec(spec_hit)]
    pub fn hit(&self, r_t: Interval, roots: &Roots) -> (r: Option<HitRecord>)
        ensures
            r == self.hit(r_t, roots),
            r matches Some(rec) ==> r_t.contains(rec.t) && rec.mat == self.material(),
    {
        if roots.discriminant.lt(Scalar::zero()) {
            return None;
        }
        let mut c = roots.near;
        if !r_t.contains(c.t) {
            c = roots.far;
            if !r_t.contains(c.t) {
                return None;
            }
        }
        let mut rec = HitRecord::new();
        rec.t = c.t;
        rec.p = c.p;
        rec.set_face_normal(c.facing, c.outward_normal);
        rec.mat = self.mat;
        Some(rec)
    }
}

/// Where the smaller root is not above the larger one, a hit lies at the
/// least root that the range has: no root inside the range comes before it,
/// and a root inside the range means that there is a hit.
pub proof fn lemma_hit_is_least_root(s: Sphere, r_t: Interval, roots: Roots, root: Scalar)
    requires
        !roots.discriminant.lt(Scalar::zero()),
        roots.near.t.is_nan() || roots.far.t.is_nan() || roots.near.t.le(roots.far.t),
        root == roots.near.t || root == roots.far.t,
        r_t.contains(root),
    ensures
        s.hit(r_t, &roots) matches Some(rec) && rec.t.le(root),
{
}

/// Lowering the upper end of the range to `bound` loses no hit at or below
/// `bound`, and finds none that the whole range would not: provided the
/// smaller root is not above the larger one, the narrowed range gives the
/// hit of the whole range where that lies at or below `bound`, and none
/// otherwise.
pub proof fn lemma_narrowing(s: Sphere, r_t: Interval, bound: Scalar, roots: Roots)
    requires
        bound.le(r_t.max),
        roots.near.t.is_nan() || roots.far.t.is_nan() || roots.near.t.le(roots.far.t),
    ensures
        s.hit(Interval { min: r_t.min, max: bound }, &roots) == (match s.hit(r_t, &roots) {
            Some(rec) => if rec.t.le(bound) {
                Some(rec)
            } else {
                None
            },
            None => None,
        }),
{
}

} // verus!
