//! Verified decision core of a recursive path tracer.
//!
//! Real numbers are carried as IEEE 754 binary64 bit patterns ([`scalar::Scalar`]);
//! every comparison, selection and scheduling rule of the tracer is stated and
//! proved over those patterns, while rounding arithmetic is left to the caller.
pub mod scalar;
pub mod random;
pub mod vector;
pub mod ray;
pub mod interval;
pub mod hittable;
pub mod material;
pub mod sphere;
pub mod hittable_list;
pub mod camera;
pub mod color;
pub mod render;
