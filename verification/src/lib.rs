//! Geometry kernel for a physically-based renderer: vectors, points, normals,
//! axis-aligned bounds, rays and affine transforms, generic over an abstract
//! floating-scalar capability trait with one exact fixed-point instantiation.

pub mod scalar;
pub mod fixed;
pub mod traits;
pub mod util;
pub mod vector;
pub mod normal;
pub mod point;
pub mod bounds;
pub mod transform;
pub mod ray;
