//! A software 3D rendering pipeline over fixed-point arithmetic.
//!
//! Object-space geometry is transformed into camera space, culled and
//! clipped against a view frustum, projected onto a viewing plane, and
//! scan-converted into shaded pixels on an image buffer.
//!
//! Real-valued quantities (coordinates, matrix entries, plane offsets)
//! are represented as `i64` fixed-point numbers with 16 fractional bits;
//! every arithmetic operation saturates instead of overflowing and has an
//! exact specification.
use vstd::prelude::*;

pub mod canvas;
pub mod fixed;
pub mod laws;
pub mod matrix;
pub mod model;
pub mod raster;
pub mod render;
pub mod trig;
pub mod vector;

verus! {

} // verus!
