//! Smooth three-dimensional center-line curves from sparse control data:
//! helical Pythagorean-hodograph quintic segments that interpolate endpoint
//! positions and tangents while minimizing bending energy, a uniform
//! Catmull-Rom alternative, rotation-minimizing Euler-Rodrigues frames, and
//! arc-length resampling for near-uniform tessellation.  All coordinates are
//! fixed-point scalars, so every evaluation has an exact contract.

pub mod fx;
pub mod linalg;
pub mod curve;
pub mod hermite;
pub mod catmull_rom;
pub mod quartic;
pub mod proc_mesh;
