//! A ray-casting geometry engine over exact integer arithmetic.
//!
//! One ray is cast per output pixel and tested against simple solids
//! (sphere, plane, finite cylinder) for the nearest forward intersection.
//! All coordinates are integers; viewport fractions are cleared by a fixed
//! even scale, and the irrational hit distances of the quadric surfaces are
//! carried exactly as `(p + e*sqrt(sq)) / w`, so every geometric decision
//! (hit or miss, root signs, cap bounds, nearest candidate) is exact and
//! verified, with no floating point anywhere.

pub mod num;
pub mod root;
pub mod vec;
pub mod matrix;
pub mod ray;
pub mod material;
pub mod shape;
pub mod sphere;
pub mod plane;
pub mod cilinder;
pub mod light;
pub mod scene;
pub mod camera;
