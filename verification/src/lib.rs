//! A ray tracer whose arithmetic is exact: every scalar is a saturating
//! fixed-point number carried in an `i64`, so every geometric and shading
//! computation has a mathematical specification that Verus checks.

pub mod approx;
pub mod camera;
pub mod canvas;
pub mod color;
pub mod fx;
pub mod intersections;
pub mod lights;
pub mod material;
pub mod patterns;
pub mod primitives;
pub mod matrices;
pub mod point;
pub mod preset;
pub mod ray;
pub mod render;
pub mod transformations;
pub mod vector;
pub mod world;
