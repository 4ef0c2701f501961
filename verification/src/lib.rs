//! A physically based renderer core: Monte Carlo path tracing over a
//! fixed-point scalar type, with verified arithmetic and geometry.
//!
//! Every quantity the renderer computes with (coordinates, colors, ray
//! parameters, probability densities) is a `Fx`: a signed 64-bit integer
//! holding a real number scaled by 2^16, saturating at a large magnitude
//! bound. All operations on `Fx` have exact contracts, so every layer above
//! (vectors, transforms, shapes, BSDFs, lights, integrators) is specified
//! and verified in terms of the same integer model it executes.

pub mod fixed;
pub mod common;
pub mod trig;
pub mod vector;
pub mod matrix;
pub mod ray;
pub mod aabb;
pub mod transform;
pub mod color;
pub mod rng;
pub mod onb;
pub mod distributions;
pub mod interaction;
pub mod texture;
pub mod material;
pub mod media;
pub mod shape;
pub mod sphere;
pub mod mesh;
pub mod light;
pub mod primitive;
pub mod scene;
pub mod integrator;
pub mod camera;
pub mod world;
