//! A wireframe rendering pipeline over an indexed triangle mesh.
//!
//! The pipeline extracts line segments from mesh geometry, composes a
//! time-dependent affine transform, projects transformed points to integer
//! pixel coordinates, and decides the draw calls for each frame.  All
//! geometry is carried in fixed-point coordinates so that every step has an
//! exact arithmetic meaning.  Window management, file loading and the actual
//! drawing surface live outside this crate.

pub mod driver;
pub mod frame;
pub mod geom;
pub mod mesh;
pub mod transform;
