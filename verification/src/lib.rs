//! A terminal triangle renderer: fixed-point vector/matrix algebra,
//! transform builders, a bounds-checked 2D buffer, and a depth-tested
//! triangle rasterizer with flat Lambertian shading.
//!
//! All scalar arithmetic is exact fixed-point arithmetic over `Fx`
//! (a signed 16.16 value), so every operation has a pinned contract.

pub mod fx;
pub mod grid;
pub mod matrix2;
pub mod matrix3;
pub mod matrix4;
pub mod model;
pub mod projection;
pub mod raster;
pub mod rotation;
pub mod transform;
pub mod triangle;
pub mod trig;
pub mod vector2;
pub mod vector3;
pub mod vector4;
