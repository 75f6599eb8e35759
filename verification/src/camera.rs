//! The camera: its configuration, the frame derived from it, and what
//! becomes of a ray at each bounce.
use vstd::prelude::*;
use crate::hittable::HitRecord;
use crate::interval::Interval;
use crate::material::Scatterable;
use crate::ray::Ray;
use crate::scalar::Scalar;
use crate::vector::Vec3;

verus! {

/// Bit pattern of `0.001`, the least ray parameter at which a hit counts.
/// Nearer hits are the surface that the ray has just left.
pub const SHADOW_EPSILON: u64 = 0x3F50_624D_D2F1_A9FC;

/// The camera's state that is computed once from its configuration.
#[derive(Debug, Clone, Copy)]
pub struct Frame {
    /// Camera center.
    pub center: Vec3,
    /// Location of the center of pixel (0, 0).
    pub pixel00_loc: Vec3,
    /// Offset from a pixel to the one to its right.
    pub pixel_delta_u: Vec3,
    /// Offset from a pixel to the one below it.
    pub pixel_delta_v: Vec3,
    /// The weight of one sample in a pixel's colour.
    pub pixel_sample_scale: Scalar,
    /// The camera's basis: `u` to the right, `v` up, `w` against the view.
    pub u: Vec3,
    pub v: Vec3,
    pub w: Vec3,
    /// Horizontal radius of the defocus disk.
    pub defocus_disk_u: Vec3,
    /// Vertical radius of the defocus disk.
    pub defocus_disk_v: Vec3,
}

impl Frame {
    pub open spec fn spec_zeros() -> Frame {
        Frame {
            center: Vec3::zeros(),
            pixel00_loc: Vec3::zeros(),
            pixel_delta_u: Vec3::zeros(),
            pixel_delta_v: Vec3::zeros(),
            pixel_sample_scale: Scalar::zero(),
            u: Vec3::zeros(),
            v: Vec3::zeros(),
            w: Vec3::zeros(),
            defocus_disk_u: Vec3::zeros(),
            defocus_disk_v: Vec3::zeros(),
        }
    }

    /// The frame of a camera that has not been initialized: all zero.
    #[verifier::when_used_as_spec(spec_zeros)]
    pub fn zeros() -> (f: Frame)
        ensures
            f == Frame::zeros(),
    {
        Frame {
            center: Vec3::zeros(),
            pixel00_loc: Vec3::zeros(),
            pixel_delta_u: Vec3::zeros(),
            pixel_delta_v: Vec3::zeros(),
            pixel_sample_scale: Scalar::zero(),
            u: Vec3::zeros(),
            v: Vec3::zeros(),
            w: Vec3::zeros(),
            defocus_disk_u: Vec3::zeros(),
            defocus_disk_v: Vec3::zeros(),
        }
    }
}

/// A camera: what it was configured with, and the frame derived from that.
#[derive(Debug, Clone, Copy)]
pub struct Camera {
    /// Rendered image width, in pixels.
    pub image_width: usize,
    /// Rendered image height, in pixels.
    pub image_height: usize,
    /// Count of random samples for each pixel.
    pub samples_per_pixel: usize,
    /// Maximum number of bounces of a ray.
    pub max_depth: usize,
    /// Vertical view angle, in degrees.
    pub vfov: Scalar,
    /// The point the camera looks from.
    pub look_from: Vec3,
    /// The point the camera looks at.
    pub look_at: Vec3,
    /// The direction that is up for the camera.
    pub vup: Vec3,
    /// Variation angle of rays through each pixel, in degrees.
    pub defocus_angle: Scalar,
    /// Distance from `look_from` to the plane of perfect focus.
    pub focus_dist: Scalar,
    /// The derived state; all zero until `initialize` is called.
    pub frame: Frame,
}

/// Why a camera could not be built.
#[derive(Debug, Clone, Copy)]
#[non_exhaustive]
pub enum CameraBuilderError {
    /// The named field, the first in the order of `Camera`'s fields, was never set.
    UninitializedField(&'static str),
}

/// Collects the configuration of a camera field by field.
#[derive(Debug, Clone, Copy)]
pub struct CameraBuilder {
    pub image_width: Option<usize>,
    pub image_height: Option<usize>,
    pub samples_per_pixel: Option<usize>,
    pub max_depth: Option<usize>,
    pub vfov: Option<Scalar>,
    pub look_from: Option<Vec3>,
    pub look_at: Option<Vec3>,
    pub vup: Option<Vec3>,
    pub defocus_angle: Option<Scalar>,
    pub focus_dist: Option<Scalar>,
}

impl CameraBuilder {
    /// The builder with no field set.
    pub open spec fn empty() -> CameraBuilder {
        CameraBuilder {
            image_width: None,
            image_height: None,
            samples_per_pixel: None,
            max_depth: None,
            vfov: None,
            look_from: None,
            look_at: None,
            vup: None,
            defocus_angle: None,
            focus_dist: None,
        }
    }

    /// Whether every field has been set.
    pub open spec fn complete(&self) -> bool {
        self.missing() is None
    }

    /// The name of the first field that has not been set.
    pub open spec fn missing(&self) -> Option<&'static str> {
        if self.image_width is None {
            Some("image_width")
        } else if self.image_height is None {
            Some("image_height")
        } else if self.samples_per_pixel is None {
            Some("samples_per_pixel")
        } else if self.max_depth is None {
            Some("max_depth")
        } else if self.vfov is None {
            Some("vfov")
        } else if self.look_from is None {
            Some("look_from")
        } else if self.look_at is None {
            Some("look_at")
        } else if self.vup is None {
            Some("vup")
        } else if self.defocus_angle is None {
            Some("defocus_angle")
        } else if self.focus_dist is None {
            Some("focus_dist")
        } else {
            None
        }
    }

    /// The camera that a complete builder describes.
    pub open spec fn camera(&self) -> Camera {
        Camera {
            image_width: self.image_width.unwrap(),
            image_height: self.image_height.unwrap(),
            samples_per_pixel: self.samples_per_pixel.unwrap(),
            max_depth: self.max_depth.unwrap(),
            vfov: self.vfov.unwrap(),
            look_from: self.look_from.unwrap(),
            look_at: self.look_at.unwrap(),
            vup: self.vup.unwrap(),
            defocus_angle: self.defocus_angle.unwrap(),
            focus_dist: self.focus_dist.unwrap(),
            frame: Frame::zeros(),
        }
    }

    pub fn image_width(&mut self, value: usize) -> (b: &mut CameraBuilder)
        ensures
            *b == (CameraBuilder { image_width: Some(value), ..*old(self) }),
            *final(self) == *final(b),
    {
        self.image_width = Some(value);
        self
    }

    pub fn image_height(&mut self, value: usize) -> (b: &mut CameraBuilder)
        ensures
            *b == (CameraBuilder { image_height: Some(value), ..*old(self) }),
            *final(self) == *final(b),
    {
        self.image_height = Some(value);
        self
    }

    /// Sets both dimensions of the image.
    pub fn image_size(&mut self, width: usize, height: usize) -> (b: &mut CameraBuilder)
        ensures
            *b == (CameraBuilder {
                image_width: Some(width),
                image_height: Some(height),
                ..*old(self)
            }),
            *final(self) == *final(b),
    {
        self.image_width(width).image_height(height)
    }

    pub fn samples_per_pixel(&mut self, value: usize) -> (b: &mut CameraBuilder)
        ensures
            *b == (CameraBuilder { samples_per_pixel: Some(value), ..*old(self) }),
            *final(self) == *final(b),
    {
        self.samples_per_pixel = Some(value);
        self
    }

    pub fn max_depth(&mut self, value: usize) -> (b: &mut CameraBuilder)
        ensures
            *b == (CameraBuilder { max_depth: Some(value), ..*old(self) }),
            *final(self) == *final(b),
    {
        self.max_depth = Some(value);
        self
    }

    pub fn vfov(&mut self, value: Scalar) -> (b: &mut CameraBuilder)
        ensures
            *b == (CameraBuilder { vfov: Some(value), ..*old(self) }),
            *final(self) == *final(b),
    {
        self.vfov = Some(value);
        self
    }

    pub fn look_from(&mut self, value: Vec3) -> (b: &mut CameraBuilder)
        ensures
            *b == (CameraBuilder { look_from: Some(value), ..*old(self) }),
            *final(self) == *final(b),
    {
        self.look_from = Some(value);
        self
    }

    pub fn look_at(&mut self, value: Vec3) -> (b: &mut CameraBuilder)
        ensures
            *b == (CameraBuilder { look_at: Some(value), ..*old(self) }),
            *final(self) == *final(b),
    {
        self.look_at = Some(value);
        self
    }

    pub fn vup(&mut self, value: Vec3) -> (b: &mut CameraBuilder)
        ensures
            *b == (CameraBuilder { vup: Some(value), ..*old(self) }),
            *final(self) == *final(b),
    {
        self.vup = Some(value);
        self
    }

    pub fn defocus_angle(&mut self, value: Scalar) -> (b: &mut CameraBuilder)
        ensures
            *b == (CameraBuilder { defocus_angle: Some(value), ..*old(self) }),
            *final(self) == *final(b),
    {
        self.defocus_angle = Some(value);
        self
    }

    pub fn focus_dist(&mut self, value: Scalar) -> (b: &mut CameraBuilder)
        ensures
            *b == (CameraBuilder { focus_dist: Some(value), ..*old(self) }),
            *final(self) == *final(b),
    {
        self.focus_dist = Some(value);
        self
    }

    /// The camera, if every field has been set; else the first field that
    /// has not, in the order in which `Camera` declares them.
    pub fn build(&self) -> (r: Result<Camera, CameraBuilderError>)
        ensures
            match r {
                Ok(camera) => self.complete() && camera == self.camera(),
                Err(CameraBuilderError::UninitializedField(name)) => self.missing() == Some(name),
            },
    {
        let image_width = match self.image_width {
            Some(value) => value,
            None => { return Err(CameraBuilderError::UninitializedField("image_width")); },
        };
        let image_height = match self.image_height {
            Some(value) => value,
            None => { return Err(CameraBuilderError::UninitializedField("image_height")); },
        };
        let samples_per_pixel = match self.samples_per_pixel {
            Some(value) => value,
            None => { return Err(CameraBuilderError::UninitializedField("samples_per_pixel")); },
        };
        let max_depth = match self.max_depth {
            Some(value) => value,
            None => { return Err(CameraBuilderError::UninitializedField("max_depth")); },
        };
        let vfov = match self.vfov {
            Some(value) => value,
            None => { return Err(CameraBuilderError::UninitializedField("vfov")); },
        };
        let look_from = match self.look_from {
            Some(value) => value,
            None => { return Err(CameraBuilderError::UninitializedField("look_from")); },
        };
        let look_at = match self.look_at {
            Some(value) => value,
            None => { return Err(CameraBuilderError::UninitializedField("look_at")); },
        };
        let vup = match self.vup {
            Some(value) => value,
            None => { return Err(CameraBuilderError::UninitializedField("vup")); },
        };
        let defocus_angle = match self.defocus_angle {
            Some(value) => value,
            None => { return Err(CameraBuilderError::UninitializedField("defocus_angle")); },
        };
        let focus_dist = match self.focus_dist {
            Some(value) => value,
            None => { return Err(CameraBuilderError::UninitializedField("focus_dist")); },
        };
        Ok(
            Camera {
                image_width,
                image_height,
                samples_per_pixel,
                max_depth,
                vfov,
                look_from,
                look_at,
                vup,
                defocus_angle,
                focus_dist,
                frame: Frame::zeros(),
            },
        )
    }
}

impl Default for CameraBuilder {
    fn default() -> (b: CameraBuilder)
        ensures
            b == CameraBuilder::empty(),
    {
        CameraBuilder {
            image_width: None,
            image_height: None,
            samples_per_pixel: None,
            max_depth: None,
            vfov: None,
            look_from: None,
            look_at: None,
            vup: None,
            defocus_angle: None,
            focus_dist: None,
        }
    }
}

/// What a ray contributes, as far as one bounce decides it.
#[derive(Debug, Clone, Copy)]
pub enum Shade {
    /// Nothing: the ray's light is lost.
    Black,
    /// The colour of the sky in the ray's direction.
    Background,
    /// `attenuation`, channel by channel, times what `scattered` contributes
    /// with `depth` bounces left.
    Bounce { attenuation: Vec3, scattered: Ray, depth: usize },
}

impl Camera {
    pub open spec fn spec_pinhole(&self) -> bool {
        self.defocus_angle.le(Scalar::zero())
    }

    pub open spec fn spec_hit_range() -> Interval {
        Interval { min: Scalar { bits: SHADOW_EPSILON }, max: Scalar::infinity() }
    }

    pub open spec fn spec_search_range(depth: usize) -> Option<Interval> {
        if depth == 0 {
            None
        } else {
            Some(Camera::hit_range())
        }
    }

    pub open spec fn spec_ray_color(depth: usize, hit: Option<(HitRecord, Vec3)>) -> Shade {
        if depth == 0 {
            Shade::Black
        } else {
            match hit {
                None => Shade::Background,
                Some((rec, direction)) => match rec.mat.scatter_spec(&rec, direction) {
                    None => Shade::Black,
                    Some(s) => Shade::Bounce {
                        attenuation: s.attenuation,
                        scattered: s.scattered,
                        depth: (depth - 1) as usize,
                    },
                },
            }
        }
    }

    /// Stores the derived frame, and returns the camera that results.
    pub fn initialize(&mut self, frame: Frame) -> (camera: Camera)
        ensures
            *final(self) == (Camera { frame, ..*old(self) }),
            camera == *final(self),
    {
        self.frame = frame;
        *self
    }

    /// Whether rays start at the camera's center rather than on the defocus
    /// disk: they do when the defocus angle is zero or less.
    #[verifier::when_used_as_spec(spec_pinhole)]
    pub fn pinhole(&self) -> (r: bool)
        ensures
            r == self.pinhole(),
    {
        self.defocus_angle.le(Scalar::zero())
    }

    /// The range of ray parameters in which a hit counts: from `0.001`
    /// upwards without bound.
    #[verifier::when_used_as_spec(spec_hit_range)]
    pub fn hit_range() -> (r: Interval)
        ensures
            r == Camera::hit_range(),
    {
        Interval::new(Scalar::from_bits(SHADOW_EPSILON), Scalar::infinity())
    }

    /// The range in which to look for the nearest hit of a ray with `depth`
    /// bounces left: none with no bounce left, when the ray is not traced
    /// at all.
    #[verifier::when_used_as_spec(spec_search_range)]
    pub fn search_range(depth: usize) -> (r: Option<Interval>)
        ensures
            r == Camera::search_range(depth),
    {
        if depth == 0 {
            None
        } else {
            Some(Camera::hit_range())
        }
    }

    /// What a ray contributes when `depth` bounces are left to it. With none
    /// left it contributes nothing, whatever it hits. Otherwise `hit` is its
    /// nearest hit in the world, with the outgoing direction sampled for the
    /// material there: a ray that hits nothing shows the background, and one
    /// that is scattered goes on with one bounce less.
    #[verifier::when_used_as_spec(spec_ray_color)]
    pub fn ray_color(depth: usize, hit: Option<(HitRecord, Vec3)>) -> (shade: Shade)
        ensures
            shade == Camera::ray_color(depth, hit),
            depth == 0 ==> shade is Black,
            shade matches Shade::Bounce { depth: left, .. } ==> left + 1 == depth,
    {
        if depth == 0 {
            return Shade::Black;
        }
        match hit {
            None => Shade::Background,
            Some((rec, direction)) => match rec.mat.scatter(&rec, direction) {
                None => Shade::Black,
                Some(s) => Shade::Bounce {
                    attenuation: s.attenuation,
                    scattered: s.scattered,
                    depth: depth - 1,
                },
            },
        }
    }
}

/// The bounces left to a ray that started with `depth` of them and was
/// scattered at each of `hits` in turn; `None` if it ended before the last.
pub open spec fn depth_after(depth: usize, hits: Seq<Option<(HitRecord, Vec3)>>) -> Option<usize>
    decreases hits.len(),
{
    if hits.len() == 0 {
        Some(depth)
    } else {
        match Camera::ray_color(depth, hits[0]) {
            Shade::Bounce { depth: left, .. } => depth_after(left, hits.drop_first()),
            _ => None,
        }
    }
}

/// Every bounce uses up one unit of depth, so a ray is scattered at most
/// as many times as its depth allows.
pub proof fn lemma_bounces_bounded(depth: usize, hits: Seq<Option<(HitRecord, Vec3)>>)
    ensures
        depth_after(depth, hits) matches Some(left) ==> left + hits.len() == depth,
    decreases hits.len(),
{
    if hits.len() > 0 {
        match Camera::ray_color(depth, hits[0]) {
            Shade::Bounce { depth: left, .. } => {
                lemma_bounces_bounded(left, hits.drop_first());
            },
            _ => {},
        }
    }
}

/// With no bounces left a ray contributes nothing, whether it hits or not.
pub proof fn lemma_depth_zero_black(hit: Option<(HitRecord, Vec3)>)
    ensures
        Camera::ray_color(0, hit) == Shade::Black,
{
}

/// With bounces left, a ray that hits nothing shows the background.
pub proof fn lemma_miss_shows_background(depth: usize)
    requires
        depth > 0,
    ensures
        Camera::ray_color(depth, None) == Shade::Background,
{
}

} // verus!
