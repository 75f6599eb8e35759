//! The record of one ray-surface intersection.
use vstd::prelude::*;
use crate::material::Material;
use crate::scalar::Scalar;
use crate::vector::Vec3;

verus! {

/// Where a ray met a surface, and what it met there.
#[derive(Debug, Clone, Copy)]
pub struct HitRecord {
    /// The point of intersection.
    pub p: Vec3,
    /// The surface normal at `p`, turned against the incoming ray.
    pub normal: Vec3,
    /// The ray parameter at `p`.
    pub t: Scalar,
    /// Whether the ray met the surface from outside.
    pub front_face: bool,
    /// The material of the surface at `p`.
    pub mat: Material,
}

impl HitRecord {
    pub open spec fn spec_new() -> HitRecord {
        HitRecord {
            p: Vec3::zeros(),
            normal: Vec3::zeros(),
            t: Scalar::zero(),
            front_face: false,
            mat: Material::lambertian(Vec3::zeros()),
        }
    }

    /// The normal that opposes a ray whose direction has the inner product
    /// `facing` with `outward_normal`.
    pub open spec fn opposing(facing: Scalar, outward_normal: Vec3) -> Vec3 {
        if facing.lt(Scalar::zero()) {
            outward_normal
        } else {
            outward_normal.neg()
        }
    }

    /// A record at the origin with parameter zero, on a black diffuse surface.
    #[verifier::when_used_as_spec(spec_new)]
    pub fn new() -> (rec: HitRecord)
        ensures
            rec == HitRecord::new(),
    {
        HitRecord {
            p: Vec3::zeros(),
            normal: Vec3::zeros(),
            t: Scalar::zero(),
            front_face: false,
            mat: Material::lambertian(Vec3::zeros()),
        }
    }

    /// Sets the face flag and the normal from the outward normal of the
    /// surface and `facing`, the inner product of the ray's direction with
    /// that normal. The hit is front-facing exactly when `facing < 0`;
    /// otherwise the stored normal is the outward one reversed.
    pub fn set_face_normal(&mut self, facing: Scalar, outward_normal: Vec3)
        ensures
            final(self).front_face == facing.lt(Scalar::zero()),
            final(self).normal == HitRecord::opposing(facing, outward_normal),
            final(self).p == old(self).p,
            final(self).t == old(self).t,
            final(self).mat == old(self).mat,
    {
        self.front_face = facing.lt(Scalar::zero());
        self.normal = if self.front_face {
            outward_normal
        } else {
            outward_normal.neg()
        };
    }
}

} // verus!
