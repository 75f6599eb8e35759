//! Surface materials and the outcome of scattering a ray off them.
use vstd::prelude::*;
use crate::hittable::HitRecord;
use crate::ray::Ray;
use crate::scalar::Scalar;
use crate::vector::Vec3;

verus! {

/// A scattered ray and the share of each colour channel that it keeps.
#[derive(Debug, Clone, Copy)]
pub struct Scatter {
    pub attenuation: Vec3,
    pub scattered: Ray,
}

/// Materials turn a hit and an outgoing direction, sampled by the caller for
/// the kind of material at hand, into a scattered ray, or absorb the ray.
pub trait Scatterable {
    spec fn scatter_spec(&self, rec: &HitRecord, direction: Vec3) -> Option<Scatter>;

    fn scatter(&self, rec: &HitRecord, direction: Vec3) -> (r: Option<Scatter>)
        ensures
            r == self.scatter_spec(rec, direction),
    ;
}

/// A diffuse surface.
#[derive(Debug, Clone, Copy)]
pub struct Lambertian {
    pub albedo: Vec3,
}

impl Lambertian {
    pub open spec fn spec_new(albedo: Vec3) -> Lambertian {
        Lambertian { albedo }
    }

    /// The direction that a diffuse surface scatters into: the sampled one,
    /// unless it is too short, in which case the normal takes its place.
    pub open spec fn spec_direction(direction: Vec3, normal: Vec3) -> Vec3 {
        if direction.near_zero() {
            normal
        } else {
            direction
        }
    }

    #[verifier::when_used_as_spec(spec_new)]
    pub fn new(albedo: Vec3) -> (m: Lambertian)
        ensures
            m == Lambertian::new(albedo),
    {
        Lambertian { albedo }
    }

    #[verifier::when_used_as_spec(spec_direction)]
    pub fn direction(direction: Vec3, normal: Vec3) -> (d: Vec3)
        ensures
            d == Lambertian::direction(direction, normal),
            !normal.near_zero() ==> !d.near_zero(),
    {
        if direction.near_zero() {
            normal
        } else {
            direction
        }
    }
}

impl Scatterable for Lambertian {
    /// Never absorbs; keeps the albedo's share of the light.
    open spec fn scatter_spec(&self, rec: &HitRecord, direction: Vec3) -> Option<Scatter> {
        Some(
            Scatter {
                attenuation: self.albedo,
                scattered: Ray { origin: rec.p, direction: Lambertian::direction(direction, rec.normal) },
            },
        )
    }

    fn scatter(&self, rec: &HitRecord, direction: Vec3) -> (r: Option<Scatter>) {
        let scattered = Ray::new(rec.p, Lambertian::direction(direction, rec.normal));
        Some(Scatter { attenuation: self.albedo, scattered })
    }
}

/// A mirror-like surface whose reflections are blurred by `fuzz`.
#[derive(Debug, Clone, Copy)]
pub struct Metal {
    albedo: Vec3,
    fuzz: Scalar,
}

impl Metal {
    #[verifier::type_invariant]
    spec fn in_range(self) -> bool {
        Scalar::zero().le(self.fuzz) && self.fuzz.le(Scalar::one())
    }

    pub closed spec fn spec_albedo(&self) -> Vec3 {
        self.albedo
    }

    pub closed spec fn spec_fuzz(&self) -> Scalar {
        self.fuzz
    }

    /// A metal of the given colour. The fuzziness is brought into `[0, 1]`:
    /// a value above one, or a NaN, counts as one, a value below zero as zero.
    pub fn new(albedo: Vec3, fuzz: Scalar) -> (m: Metal)
        ensures
            m.albedo() == albedo,
            m.fuzz() == fuzz.min(Scalar::one()).max(Scalar::zero()),
            Scalar::zero().le(m.fuzz()) && m.fuzz().le(Scalar::one()),
    {
        let fuzz = fuzz.min(Scalar::one()).max(Scalar::zero());
        Metal { albedo, fuzz }
    }

    #[verifier::when_used_as_spec(spec_albedo)]
    pub fn albedo(&self) -> (a: Vec3)
        ensures
            a == self.albedo(),
    {
        self.albedo
    }

    #[verifier::when_used_as_spec(spec_fuzz)]
    pub fn fuzz(&self) -> (f: Scalar)
        ensures
            f == self.fuzz(),
            Scalar::zero().le(f) && f.le(Scalar::one()),
    {
        proof {
            use_type_invariant(self);
        }
        self.fuzz
    }
}

impl Scatterable for Metal {
    /// Never absorbs, whichever side of the surface the direction points to;
    /// keeps the albedo's share of the light.
    open spec fn scatter_spec(&self, rec: &HitRecord, direction: Vec3) -> Option<Scatter> {
        Some(Scatter { attenuation: self.albedo(), scattered: Ray { origin: rec.p, direction } })
    }

    fn scatter(&self, rec: &HitRecord, direction: Vec3) -> (r: Option<Scatter>) {
        Some(Scatter { attenuation: self.albedo, scattered: Ray::new(rec.p, direction) })
    }
}

/// A clear refracting medium such as glass or water.
#[derive(Debug, Clone, Copy)]
pub struct Dielectric {
    pub ref_idx: Scalar,
}

impl Dielectric {
    pub open spec fn spec_new(ref_idx: Scalar) -> Dielectric {
        Dielectric { ref_idx }
    }

    pub open spec fn spec_index_ratio(&self, front_face: bool, inverse: Scalar) -> Scalar {
        if front_face {
            inverse
        } else {
            self.ref_idx
        }
    }

    pub open spec fn spec_reflects(sin_scaled: Scalar, reflectance: Scalar, draw: Scalar) -> bool {
        sin_scaled.gt(Scalar::one()) || reflectance.gt(draw)
    }

    #[verifier::when_used_as_spec(spec_new)]
    pub fn new(ref_idx: Scalar) -> (m: Dielectric)
        ensures
            m == Dielectric::new(ref_idx),
    {
        Dielectric { ref_idx }
    }

    /// The ratio of refractive indices that a ray meets: `inverse`, the
    /// reciprocal of the medium's index, for a ray that enters the medium
    /// through a front face, and the index itself for one that leaves it.
    #[verifier::when_used_as_spec(spec_index_ratio)]
    pub fn index_ratio(&self, front_face: bool, inverse: Scalar) -> (r: Scalar)
        ensures
            r == self.index_ratio(front_face, inverse),
    {
        if front_face {
            inverse
        } else {
            self.ref_idx
        }
    }

    /// Whether a ray is reflected rather than refracted. `sin_scaled` is the
    /// sine of the angle of incidence times the ratio of refractive indices:
    /// above one, Snell's law has no solution and the ray must reflect.
    /// Otherwise it reflects when the `reflectance` at that angle exceeds the
    /// uniform `draw`.
    #[verifier::when_used_as_spec(spec_reflects)]
    pub fn reflects(sin_scaled: Scalar, reflectance: Scalar, draw: Scalar) -> (r: bool)
        ensures
            r == Dielectric::reflects(sin_scaled, reflectance, draw),
    {
        sin_scaled.gt(Scalar::one()) || reflectance.gt(draw)
    }
}

impl Scatterable for Dielectric {
    /// Never absorbs, and keeps all of the light.
    open spec fn scatter_spec(&self, rec: &HitRecord, direction: Vec3) -> Option<Scatter> {
        Some(Scatter { attenuation: Vec3::ones(), scattered: Ray { origin: rec.p, direction } })
    }

    fn scatter(&self, rec: &HitRecord, direction: Vec3) -> (r: Option<Scatter>) {
        Some(Scatter { attenuation: Vec3::ones(), scattered: Ray::new(rec.p, direction) })
    }
}

/// The closed set of materials.
#[derive(Debug, Clone, Copy)]
pub enum Material {
    Lambertian(Lambertian),
    Metal(Metal),
    Dielectric(Dielectric),
}

impl Material {
    pub open spec fn spec_lambertian(albedo: Vec3) -> Material {
        Material::Lambertian(Lambertian::new(albedo))
    }

    pub open spec fn spec_dielectric(ref_idx: Scalar) -> Material {
        Material::Dielectric(Dielectric::new(ref_idx))
    }

    #[verifier::when_used_as_spec(spec_lambertian)]
    pub fn lambertian(albedo: Vec3) -> (m: Material)
        ensures
            m == Material::lambertian(albedo),
    {
        Material::Lambertian(Lambertian::new(albedo))
    }

    pub fn metal(albedo: Vec3, fuzz: Scalar) -> (m: Material)
        ensures
            m matches Material::Metal(metal) && metal.albedo() == albedo && metal.fuzz()
                == fuzz.min(Scalar::one()).max(Scalar::zero()),
    {
        Material::Metal(Metal::new(albedo, fuzz))
    }

    #[verifier::when_used_as_spec(spec_dielectric)]
    pub fn dielectric(ref_idx: Scalar) -> (m: Material)
        ensures
            m == Material::dielectric(ref_idx),
    {
        Material::Dielectric(Dielectric::new(ref_idx))
    }
}

impl Scatterable for Material {
    open spec fn scatter_spec(&self, rec: &HitRecord, direction: Vec3) -> Option<Scatter> {
        match self {
            Material::Lambertian(lambertian) => lambertian.scatter_spec(rec, direction),
            Material::Metal(metal) => metal.scatter_spec(rec, direction),
            Material::Dielectric(dielectric) => dielectric.scatter_spec(rec, direction),
        }
    }

    fn scatter(&self, rec: &HitRecord, direction: Vec3) -> (r: Option<Scatter>) {
        match self {
            Material::Lambertian(lambertian) => lambertian.scatter(rec, direction),
            Material::Metal(metal) => metal.scatter(rec, direction),
            Material::Dielectric(dielectric) => dielectric.scatter(rec, direction),
        }
    }
}

/// A diffuse surface always scatters, and never into a direction that is
/// near zero, as long as the normal of the hit is not near zero itself.
pub proof fn lemma_lambertian_direction(m: Lambertian, rec: HitRecord, direction: Vec3)
    requires
        !rec.normal.near_zero(),
    ensures
        m.scatter_spec(&rec, direction) matches Some(s) && !s.scattered.direction.near_zero()
            && s.attenuation == m.albedo && s.scattered.origin == rec.p,
        !direction.near_zero() ==> m.scatter_spec(&rec, direction).unwrap().scattered.direction
            == direction,
{
}

/// No material absorbs: every hit yields a scattered ray that starts at the
/// point of the hit.
pub proof fn lemma_always_scatters(m: Material, rec: HitRecord, direction: Vec3)
    ensures
        m.scatter_spec(&rec, direction) matches Some(s) && s.scattered.origin == rec.p,
{
}

} // verus!
