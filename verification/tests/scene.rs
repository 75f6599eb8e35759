use ray_tracer::camera::{Camera, CameraBuilder, CameraBuilderError, Frame, Shade, SHADOW_EPSILON};
use ray_tracer::hittable::HitRecord;
use ray_tracer::hittable_list::HittableList;
use ray_tracer::interval::Interval;
use ray_tracer::material::{Dielectric, Lambertian, Material, Metal, Scatterable};
use ray_tracer::scalar::Scalar;
use ray_tracer::sphere::{Crossing, Roots, Sphere};
use ray_tracer::vector::Vec3;

fn s(x: f64) -> Scalar {
    Scalar::from_bits(x.to_bits())
}

fn f(x: Scalar) -> f64 {
    f64::from_bits(x.to_bits())
}

fn v(a: [f64; 3]) -> Vec3 {
    Vec3::from_xyz(s(a[0]), s(a[1]), s(a[2]))
}

fn a(p: Vec3) -> [f64; 3] {
    [f(p.x()), f(p.y()), f(p.z())]
}

fn dot(p: [f64; 3], q: [f64; 3]) -> f64 {
    p[0] * q[0] + p[1] * q[1] + p[2] * q[2]
}

fn crossing(center: [f64; 3], radius: f64, origin: [f64; 3], dir: [f64; 3], t: f64) -> Crossing {
    let p = [origin[0] + t * dir[0], origin[1] + t * dir[1], origin[2] + t * dir[2]];
    let n = [
        (p[0] - center[0]) / radius,
        (p[1] - center[1]) / radius,
        (p[2] - center[2]) / radius,
    ];
    Crossing { t: s(t), p: v(p), outward_normal: v(n), facing: s(dot(dir, n)) }
}

fn roots(sphere: &Sphere, origin: [f64; 3], dir: [f64; 3]) -> Roots {
    let center = a(sphere.center());
    let radius = f(sphere.radius());
    let oc = [center[0] - origin[0], center[1] - origin[1], center[2] - origin[2]];
    let qa = dot(dir, dir);
    let h = dot(dir, oc);
    let c = dot(oc, oc) - radius * radius;
    let discriminant = h * h - qa * c;
    let sqrtd = discriminant.sqrt();
    Roots {
        discriminant: s(discriminant),
        near: crossing(center, radius, origin, dir, (h - sqrtd) / qa),
        far: crossing(center, radius, origin, dir, (h + sqrtd) / qa),
    }
}

fn all_roots(world: &HittableList, origin: [f64; 3], dir: [f64; 3]) -> Vec<Roots> {
    world.spheres().iter().map(|sphere| roots(sphere, origin, dir)).collect()
}

fn grey() -> Material {
    Material::lambertian(v([0.5, 0.5, 0.5]))
}

fn albedo_of(m: Material) -> [f64; 3] {
    match m {
        Material::Lambertian(l) => a(l.albedo),
        Material::Metal(m) => a(m.albedo()),
        Material::Dielectric(_) => [1.0, 1.0, 1.0],
    }
}

fn builder() -> CameraBuilder {
    let mut b = CameraBuilder::default();
    b.image_size(640, 360)
        .samples_per_pixel(10)
        .max_depth(50)
        .vfov(s(20.0))
        .look_from(v([13.0, 2.0, 3.0]))
        .look_at(v([0.0, 0.0, 0.0]))
        .vup(v([0.0, 1.0, 0.0]))
        .defocus_angle(s(0.6))
        .focus_dist(s(10.0));
    b
}

fn missing(b: &CameraBuilder) -> &'static str {
    match b.build() {
        Err(CameraBuilderError::UninitializedField(name)) => name,
        _ => panic!("the builder was complete"),
    }
}

#[test]
fn test_hittable_list() {
    let mut world = HittableList::new();
    let sphere1 = Sphere::new(Vec3::zeros(), s(1.), grey());
    let sphere2 = Sphere::new(Vec3::ones(), s(1.), grey());
    world.add(sphere1);
    world.add(sphere2);

    assert_eq!(world.len(), 2);
    world.clear();
    assert!(world.is_empty())
}

#[test]
fn world_keeps_spheres_in_order() {
    let mut world = HittableList::new();
    assert!(world.is_empty());
    assert_eq!(world.len(), 0);
    world.add(Sphere::new(v([1.0, 0.0, 0.0]), s(1.0), grey()));
    world.add(Sphere::new(v([2.0, 0.0, 0.0]), s(2.0), grey()));
    world.add(Sphere::new(v([3.0, 0.0, 0.0]), s(3.0), grey()));
    assert!(!world.is_empty());
    assert_eq!(world.len(), 3);
    let radii: Vec<f64> = world.spheres().iter().map(|x| f(x.radius())).collect();
    assert_eq!(radii, vec![1.0, 2.0, 3.0]);
    assert_eq!(a(world.spheres()[1].center()), [2.0, 0.0, 0.0]);
}

#[test]
fn sphere_radius_is_never_negative() {
    assert_eq!(f(Sphere::new(Vec3::zeros(), s(2.5), grey()).radius()), 2.5);
    assert_eq!(f(Sphere::new(Vec3::zeros(), s(-2.5), grey()).radius()), 0.0);
    assert_eq!(f(Sphere::new(Vec3::zeros(), s(f64::NAN), grey()).radius()), 0.0);
    assert_eq!(f(Sphere::new(Vec3::zeros(), s(f64::NEG_INFINITY), grey()).radius()), 0.0);
    assert_eq!(f(Sphere::new(Vec3::zeros(), s(0.0), grey()).radius()), 0.0);
    let sphere = Sphere::new(v([1.0, 2.0, 3.0]), s(4.0), Material::dielectric(s(1.5)));
    assert_eq!(a(sphere.center()), [1.0, 2.0, 3.0]);
    assert!(matches!(sphere.material(), Material::Dielectric(d) if f(d.ref_idx) == 1.5));
}

#[test]
fn ray_at_the_center_hits_at_distance_minus_radius() {
    let sphere = Sphere::new(v([0.0, 0.0, -3.0]), s(1.0), grey());
    let r = roots(&sphere, [0.0, 0.0, 0.0], [0.0, 0.0, -1.0]);
    let rec = sphere.hit(Camera::hit_range(), &r).expect("the ray meets the sphere");
    assert_eq!(f(rec.t), 2.0);
    assert_eq!(a(rec.p), [0.0, 0.0, -2.0]);
    assert_eq!(a(rec.normal), [0.0, 0.0, 1.0]);
    assert!(rec.front_face);
    assert_eq!(albedo_of(rec.mat), [0.5, 0.5, 0.5]);
}

#[test]
fn ray_past_the_sphere_misses() {
    let sphere = Sphere::new(v([0.0, 0.0, -3.0]), s(1.0), grey());
    let r = roots(&sphere, [1.5, 0.0, 0.0], [0.0, 0.0, -1.0]);
    assert!(f(r.discriminant) < 0.0);
    assert!(sphere.hit(Camera::hit_range(), &r).is_none());
    let away = roots(&sphere, [0.0, 0.0, 0.0], [0.0, 0.0, 1.0]);
    assert!(sphere.hit(Camera::hit_range(), &away).is_none());
}

#[test]
fn ray_from_inside_takes_the_larger_root() {
    let sphere = Sphere::new(v([0.0, 0.0, 0.0]), s(2.0), grey());
    let r = roots(&sphere, [0.0, 0.0, 0.0], [0.0, 0.0, -1.0]);
    assert_eq!(f(r.near.t), -2.0);
    let rec = sphere.hit(Camera::hit_range(), &r).expect("the ray leaves the sphere");
    assert_eq!(f(rec.t), 2.0);
    assert!(!rec.front_face);
    assert_eq!(a(rec.normal), [0.0, 0.0, 1.0]);
    assert_eq!(a(rec.p), [0.0, 0.0, -2.0]);
}

#[test]
fn sphere_hit_respects_the_range() {
    let sphere = Sphere::new(v([0.0, 0.0, -3.0]), s(1.0), grey());
    let r = roots(&sphere, [0.0, 0.0, 0.0], [0.0, 0.0, -1.0]);
    assert!(sphere.hit(Interval::new(s(0.001), s(1.9)), &r).is_none());
    assert_eq!(f(sphere.hit(Interval::new(s(0.001), s(2.0)), &r).unwrap().t), 2.0);
    assert_eq!(f(sphere.hit(Interval::new(s(2.5), s(10.0)), &r).unwrap().t), 4.0);
    assert_eq!(f(sphere.hit(Interval::new(s(2.0), s(4.0)), &r).unwrap().t), 2.0);
    assert!(sphere.hit(Interval::new(s(4.5), s(10.0)), &r).is_none());
    let negative = Roots { discriminant: s(-1.0), near: r.near, far: r.far };
    assert!(sphere.hit(Camera::hit_range(), &negative).is_none());
}

#[test]
fn face_normal_opposes_the_ray() {
    let mut rec = HitRecord::new();
    assert_eq!(a(rec.p), [0.0, 0.0, 0.0]);
    assert_eq!(f(rec.t), 0.0);
    assert!(!rec.front_face);
    rec.set_face_normal(s(-0.5), v([0.0, 1.0, 0.0]));
    assert!(rec.front_face);
    assert_eq!(a(rec.normal), [0.0, 1.0, 0.0]);
    rec.set_face_normal(s(0.5), v([0.0, 1.0, 0.0]));
    assert!(!rec.front_face);
    assert_eq!(a(rec.normal), [0.0, -1.0, 0.0]);
    rec.set_face_normal(s(0.0), v([0.0, 1.0, 0.0]));
    assert!(!rec.front_face);
    assert_eq!(a(rec.normal), [0.0, -1.0, 0.0]);
}

#[test]
fn world_returns_the_nearer_of_two_overlapping_spheres() {
    let red = Material::lambertian(v([1.0, 0.0, 0.0]));
    let blue = Material::lambertian(v([0.0, 0.0, 1.0]));
    let origin = [0.0, 0.0, 0.0];
    let dir = [0.0, 0.0, -1.0];
    let mut world = HittableList::new();
    world.add(Sphere::new(v([0.0, 0.0, -5.0]), s(1.5), red));
    world.add(Sphere::new(v([0.0, 0.0, -4.0]), s(1.0), blue));
    let rec = world.hit(Camera::hit_range(), &all_roots(&world, origin, dir)).unwrap();
    assert_eq!(f(rec.t), 3.0);
    assert_eq!(albedo_of(rec.mat), [0.0, 0.0, 1.0]);

    let mut swapped = HittableList::new();
    swapped.add(Sphere::new(v([0.0, 0.0, -4.0]), s(1.0), blue));
    swapped.add(Sphere::new(v([0.0, 0.0, -5.0]), s(1.5), red));
    let rec = swapped.hit(Camera::hit_range(), &all_roots(&swapped, origin, dir)).unwrap();
    assert_eq!(f(rec.t), 3.0);
    assert_eq!(albedo_of(rec.mat), [0.0, 0.0, 1.0]);
}

#[test]
fn world_breaks_ties_by_order() {
    let red = Material::lambertian(v([1.0, 0.0, 0.0]));
    let blue = Material::lambertian(v([0.0, 0.0, 1.0]));
    let mut world = HittableList::new();
    world.add(Sphere::new(v([0.0, 0.0, -3.0]), s(1.0), red));
    world.add(Sphere::new(v([0.0, 0.0, -4.0]), s(2.0), blue));
    let r = all_roots(&world, [0.0, 0.0, 0.0], [0.0, 0.0, -1.0]);
    assert_eq!(f(r[0].near.t), 2.0);
    assert_eq!(f(r[1].near.t), 2.0);
    let rec = world.hit(Camera::hit_range(), &r).unwrap();
    assert_eq!(f(rec.t), 2.0);
    assert_eq!(albedo_of(rec.mat), [1.0, 0.0, 0.0]);
}

#[test]
fn empty_world_is_never_hit() {
    let world = HittableList::new();
    assert!(world.hit(Camera::hit_range(), &Vec::new()).is_none());
    let mut missed = HittableList::new();
    missed.add(Sphere::new(v([0.0, 0.0, -3.0]), s(1.0), grey()));
    missed.add(Sphere::new(v([0.0, 5.0, -3.0]), s(1.0), grey()));
    let r = all_roots(&missed, [0.0, 0.0, 0.0], [1.0, 0.0, 0.0]);
    assert!(missed.hit(Camera::hit_range(), &r).is_none());
}

#[test]
fn world_skips_spheres_that_miss() {
    let red = Material::lambertian(v([1.0, 0.0, 0.0]));
    let mut world = HittableList::new();
    world.add(Sphere::new(v([0.0, 9.0, -3.0]), s(1.0), grey()));
    world.add(Sphere::new(v([0.0, 0.0, -8.0]), s(1.0), red));
    world.add(Sphere::new(v([9.0, 0.0, -3.0]), s(1.0), grey()));
    let rec = world
        .hit(Camera::hit_range(), &all_roots(&world, [0.0, 0.0, 0.0], [0.0, 0.0, -1.0]))
        .unwrap();
    assert_eq!(f(rec.t), 7.0);
    assert_eq!(albedo_of(rec.mat), [1.0, 0.0, 0.0]);
}

#[test]
fn silhouette_of_a_sphere_is_a_disk() {
    let sphere = Sphere::new(v([0.0, 0.0, -1.0]), s(0.5), grey());
    let mut world = HittableList::new();
    world.add(sphere);
    let (width, height) = (40usize, 20usize);
    let mut inside = 0;
    for j in 0..height {
        for i in 0..width {
            let x = -2.0 + 4.0 * (i as f64 + 0.5) / width as f64;
            let y = 1.0 - 2.0 * (j as f64 + 0.5) / height as f64;
            let dir = [x, y, -1.0];
            let len2 = dot(dir, dir);
            let along = dot(dir, [0.0, 0.0, -1.0]);
            let off2 = 1.0 - along * along / len2;
            let hit = world.hit(Camera::hit_range(), &all_roots(&world, [0.0; 3], dir));
            if (off2 - 0.25).abs() > 1e-9 {
                assert_eq!(hit.is_some(), off2 < 0.25, "pixel {i} {j}");
            }
            if hit.is_some() {
                inside += 1;
            }
        }
    }
    assert!(inside > 0 && inside < width * height);
}

#[test]
fn metal_fuzz_is_brought_into_the_unit_range() {
    let c = v([0.7, 0.6, 0.5]);
    assert_eq!(f(Metal::new(c, s(0.3)).fuzz()), 0.3);
    assert_eq!(f(Metal::new(c, s(1.7)).fuzz()), 1.0);
    assert_eq!(f(Metal::new(c, s(-0.2)).fuzz()), 0.0);
    assert_eq!(f(Metal::new(c, s(f64::NAN)).fuzz()), 1.0);
    assert_eq!(f(Metal::new(c, s(f64::INFINITY)).fuzz()), 1.0);
    assert_eq!(a(Metal::new(c, s(0.3)).albedo()), [0.7, 0.6, 0.5]);
    assert!(matches!(Material::metal(c, s(2.0)), Material::Metal(m) if f(m.fuzz()) == 1.0));
}

#[test]
fn material_constructors_keep_their_parameters() {
    assert_eq!(a(Lambertian::new(v([0.1, 0.2, 0.3])).albedo), [0.1, 0.2, 0.3]);
    assert_eq!(f(Dielectric::new(s(1.5)).ref_idx), 1.5);
    assert!(matches!(Material::lambertian(v([0.1, 0.2, 0.3])), Material::Lambertian(l) if a(l.albedo) == [0.1, 0.2, 0.3]));
    assert!(matches!(Material::dielectric(s(1.33)), Material::Dielectric(d) if f(d.ref_idx) == 1.33));
}

#[test]
fn lambertian_never_scatters_into_a_degenerate_direction() {
    let m = Lambertian::new(v([0.4, 0.2, 0.1]));
    let mut rec = HitRecord::new();
    rec.p = v([1.0, 2.0, 3.0]);
    rec.normal = v([0.0, 1.0, 0.0]);
    let cancelled = m.scatter(&rec, v([0.0, 1e-9, 0.0])).unwrap();
    assert_eq!(a(cancelled.scattered.direction()), [0.0, 1.0, 0.0]);
    assert_eq!(a(cancelled.scattered.origin()), [1.0, 2.0, 3.0]);
    assert_eq!(a(cancelled.attenuation), [0.4, 0.2, 0.1]);
    let kept = m.scatter(&rec, v([0.3, 1.2, -0.1])).unwrap();
    assert_eq!(a(kept.scattered.direction()), [0.3, 1.2, -0.1]);
    assert!(!kept.scattered.direction().near_zero());
    assert_eq!(a(Lambertian::direction(v([0.0, 0.0, 0.0]), v([0.0, 0.0, 1.0]))), [0.0, 0.0, 1.0]);
}

#[test]
fn metal_and_dielectric_scatter_into_the_given_direction() {
    let mut rec = HitRecord::new();
    rec.p = v([1.0, 2.0, 3.0]);
    rec.normal = v([0.0, 1.0, 0.0]);
    let metal = Metal::new(v([0.7, 0.6, 0.5]), s(0.0));
    let out = metal.scatter(&rec, v([0.0, -1.0, 0.0])).unwrap();
    assert_eq!(a(out.attenuation), [0.7, 0.6, 0.5]);
    assert_eq!(a(out.scattered.origin()), [1.0, 2.0, 3.0]);
    assert_eq!(a(out.scattered.direction()), [0.0, -1.0, 0.0]);
    let glass = Dielectric::new(s(1.5));
    let out = glass.scatter(&rec, v([0.0, 0.0, 0.0])).unwrap();
    assert_eq!(a(out.attenuation), [1.0, 1.0, 1.0]);
    assert_eq!(a(out.scattered.direction()), [0.0, 0.0, 0.0]);
    let out = Material::metal(v([0.7, 0.6, 0.5]), s(0.2)).scatter(&rec, v([1.0, 1.0, 0.0])).unwrap();
    assert_eq!(a(out.attenuation), [0.7, 0.6, 0.5]);
    let out = Material::dielectric(s(1.5)).scatter(&rec, v([1.0, 1.0, 0.0])).unwrap();
    assert_eq!(a(out.attenuation), [1.0, 1.0, 1.0]);
    let out = Material::lambertian(v([0.2, 0.2, 0.2])).scatter(&rec, v([0.0, 0.0, 0.0])).unwrap();
    assert_eq!(a(out.scattered.direction()), [0.0, 1.0, 0.0]);
}

#[test]
fn dielectric_reflects_beyond_the_critical_angle_or_by_chance() {
    assert!(Dielectric::reflects(s(1.2), s(0.0), s(0.9)));
    assert!(Dielectric::reflects(s(0.4), s(0.5), s(0.3)));
    assert!(!Dielectric::reflects(s(0.4), s(0.5), s(0.5)));
    assert!(!Dielectric::reflects(s(1.0), s(0.2), s(0.7)));
    assert!(!Dielectric::reflects(s(f64::NAN), s(0.2), s(0.7)));
}

#[test]
fn dielectric_inverts_its_index_on_entry() {
    let glass = Dielectric::new(s(1.5));
    assert_eq!(f(glass.index_ratio(true, s(1.0 / 1.5))), 1.0 / 1.5);
    assert_eq!(f(glass.index_ratio(false, s(1.0 / 1.5))), 1.5);
}

#[test]
fn dielectric_of_index_one_passes_normal_incidence_unbent() {
    let ri = f(Dielectric::new(s(1.0)).index_ratio(true, s(1.0f64 / 1.0)));
    let dir = [0.0, 0.0, -1.0];
    let normal = [0.0, 0.0, 1.0];
    let cos_theta = f(s(-dot(dir, normal)).min(Scalar::one()));
    assert_eq!(cos_theta, 1.0);
    let sin_theta = (1.0 - cos_theta * cos_theta).sqrt();
    let r0 = ((1.0 - ri) / (1.0 + ri)).powi(2);
    let reflectance = r0 + (1.0 - r0) * (1.0 - cos_theta).powi(5);
    for draw in [0.0, 0.25, 0.999_999] {
        assert!(!Dielectric::reflects(s(ri * sin_theta), s(reflectance), s(draw)));
    }
    for k in 0..=100 {
        let c = k as f64 / 100.0;
        let sin = (1.0 - c * c).sqrt();
        assert!(!s(ri * sin).gt(Scalar::one()));
    }
    let perp = [ri * (dir[0] + cos_theta * normal[0]), ri * (dir[1] + cos_theta * normal[1]), ri * (dir[2] + cos_theta * normal[2])];
    let k = -((1.0 - dot(perp, perp)).abs().sqrt());
    let refracted = [perp[0] + k * normal[0], perp[1] + k * normal[1], perp[2] + k * normal[2]];
    let mut rec = HitRecord::new();
    rec.normal = v(normal);
    let out = Dielectric::new(s(1.0)).scatter(&rec, v(refracted)).unwrap();
    assert_eq!(a(out.scattered.direction()), dir);
}

#[test]
fn builder_builds_a_camera_from_its_fields() {
    let cam = match builder().build() {
        Ok(cam) => cam,
        Err(_) => panic!("the builder was complete"),
    };
    assert_eq!(cam.image_width, 640);
    assert_eq!(cam.image_height, 360);
    assert_eq!(cam.samples_per_pixel, 10);
    assert_eq!(cam.max_depth, 50);
    assert_eq!(f(cam.vfov), 20.0);
    assert_eq!(a(cam.look_from), [13.0, 2.0, 3.0]);
    assert_eq!(a(cam.look_at), [0.0, 0.0, 0.0]);
    assert_eq!(a(cam.vup), [0.0, 1.0, 0.0]);
    assert_eq!(f(cam.defocus_angle), 0.6);
    assert_eq!(f(cam.focus_dist), 10.0);
    assert_eq!(a(cam.frame.center), [0.0, 0.0, 0.0]);
    assert_eq!(f(cam.frame.pixel_sample_scale), 0.0);
    assert_eq!(a(cam.frame.defocus_disk_v), [0.0, 0.0, 0.0]);
}

#[test]
fn builder_names_the_first_field_that_is_missing() {
    assert_eq!(missing(&CameraBuilder::default()), "image_width");
    let mut b = builder();
    b.image_width = None;
    b.vup = None;
    assert_eq!(missing(&b), "image_width");
    let mut b = builder();
    b.image_height = None;
    assert_eq!(missing(&b), "image_height");
    let mut b = builder();
    b.samples_per_pixel = None;
    b.focus_dist = None;
    assert_eq!(missing(&b), "samples_per_pixel");
    let mut b = builder();
    b.max_depth = None;
    assert_eq!(missing(&b), "max_depth");
    let mut b = builder();
    b.vfov = None;
    assert_eq!(missing(&b), "vfov");
    let mut b = builder();
    b.look_from = None;
    b.look_at = None;
    assert_eq!(missing(&b), "look_from");
    let mut b = builder();
    b.look_at = None;
    assert_eq!(missing(&b), "look_at");
    let mut b = builder();
    b.vup = None;
    b.defocus_angle = None;
    assert_eq!(missing(&b), "vup");
    let mut b = builder();
    b.defocus_angle = None;
    assert_eq!(missing(&b), "defocus_angle");
    let mut b = builder();
    b.focus_dist = None;
    assert_eq!(missing(&b), "focus_dist");
}

#[test]
fn image_size_sets_both_dimensions() {
    let mut b = CameraBuilder::default();
    b.image_size(320, 200);
    assert_eq!(b.image_width, Some(320));
    assert_eq!(b.image_height, Some(200));
    assert!(b.samples_per_pixel.is_none());
    b.image_width(8).max_depth(3);
    assert_eq!(b.image_width, Some(8));
    assert_eq!(b.image_height, Some(200));
    assert_eq!(b.max_depth, Some(3));
}

#[test]
fn initialize_stores_the_frame() {
    let mut cam = builder().build().ok().unwrap();
    let mut frame = Frame::zeros();
    frame.center = v([13.0, 2.0, 3.0]);
    frame.pixel_sample_scale = s(0.1);
    frame.u = v([1.0, 0.0, 0.0]);
    let out = cam.initialize(frame);
    assert_eq!(a(cam.frame.center), [13.0, 2.0, 3.0]);
    assert_eq!(f(cam.frame.pixel_sample_scale), 0.1);
    assert_eq!(a(out.frame.u), [1.0, 0.0, 0.0]);
    assert_eq!(out.image_width, 640);
    assert_eq!(f(out.focus_dist), 10.0);
}

#[test]
fn pinhole_when_the_defocus_angle_is_not_positive() {
    let mut cam = builder().build().ok().unwrap();
    assert!(!cam.pinhole());
    cam.defocus_angle = s(0.0);
    assert!(cam.pinhole());
    cam.defocus_angle = s(-1.0);
    assert!(cam.pinhole());
    cam.defocus_angle = s(f64::NAN);
    assert!(!cam.pinhole());
}

#[test]
fn hits_count_from_a_thousandth_upwards() {
    let r = Camera::hit_range();
    assert_eq!(f(r.min()), 1e-3);
    assert_eq!(f(r.max()), f64::INFINITY);
    assert_eq!(SHADOW_EPSILON, 0.001f64.to_bits());
    assert!(!r.contains(s(0.0)));
    assert!(r.contains(s(0.001)));
}

#[test]
fn ray_color_is_black_at_depth_zero() {
    let mut rec = HitRecord::new();
    rec.normal = v([0.0, 1.0, 0.0]);
    assert!(matches!(Camera::ray_color(0, Some((rec, v([0.0, 1.0, 0.0])))), Shade::Black));
    assert!(matches!(Camera::ray_color(0, None), Shade::Black));
}

#[test]
fn ray_color_shows_the_background_on_a_miss() {
    assert!(matches!(Camera::ray_color(1, None), Shade::Background));
    assert!(matches!(Camera::ray_color(50, None), Shade::Background));
}

#[test]
fn ray_color_bounces_with_one_bounce_less() {
    let mut rec = HitRecord::new();
    rec.p = v([0.0, 0.0, -2.0]);
    rec.normal = v([0.0, 0.0, 1.0]);
    rec.mat = Material::metal(v([0.8, 0.6, 0.2]), s(0.0));
    match Camera::ray_color(50, Some((rec, v([0.0, 1.0, 1.0])))) {
        Shade::Bounce { attenuation, scattered, depth } => {
            assert_eq!(depth, 49);
            assert_eq!(a(attenuation), [0.8, 0.6, 0.2]);
            assert_eq!(a(scattered.origin()), [0.0, 0.0, -2.0]);
            assert_eq!(a(scattered.direction()), [0.0, 1.0, 1.0]);
        }
        _ => panic!("the ray was scattered"),
    }
    let mut depth = 5;
    let mut bounces = 0;
    while let Shade::Bounce { depth: left, .. } = Camera::ray_color(depth, Some((rec, v([0.0, 1.0, 1.0])))) {
        depth = left;
        bounces += 1;
    }
    assert_eq!(bounces, 5);
}
