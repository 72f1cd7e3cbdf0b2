//! A boundary-representation (B-rep) topological kernel.
//!
//! Solids are represented as graphs of vertices, edges, wires, faces, shells
//! and solids, backed by a tolerance-based numeric layer that defines "equal
//! enough" for every geometric comparison, and by sweep operators that raise
//! topology by one dimension (extrusion, revolution).
//!
//! All coordinates are fixed-point: an `i64` counts units of 10^-15, so the
//! kernel tolerance of 10^-7 is exactly [`tolerance::TOLERANCE`] units and
//! every comparison the kernel makes is exact integer arithmetic.  The
//! floating-point boundary (conversion from and to `f64` vectors, numeric
//! evaluation of curve points for rendering) lives outside the kernel.

pub mod tolerance;
pub mod geom;
pub mod error;
pub mod carrier;
pub mod topo;
pub mod sweep;

use vstd::prelude::*;

verus! {

} // verus!
