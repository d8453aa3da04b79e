//! A verified Monte Carlo ray tracer.
//!
//! The renderer estimates the color arriving at each pixel of a virtual
//! camera by stochastically sampling light paths through a scene of spheres
//! with diffuse, metallic and dielectric materials. All scalar arithmetic is
//! fixed-point over `i64`, so every stage of the pipeline — vector algebra,
//! sphere intersection, material scattering, the recursive light-transport
//! estimator, and the per-row sampling and tone-mapping driver — has an exact
//! mathematical specification and is verified against it.

pub mod camera;
pub mod fixed;
pub mod hittable;
pub mod laws;
pub mod material;
pub mod ray;
pub mod render;
pub mod rng;
pub mod utils;
pub mod vec3;
