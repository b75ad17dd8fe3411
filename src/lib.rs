//! The logic of a planet renderer: a UV-sphere tessellated on an integer
//! latitude/longitude grid and proved closed, the hot-reload decisions of its
//! shader programs, and the per-frame input folding and draw plan of its
//! shadow and composite passes. Floating-point geometry, files, windows and
//! the GPU stay with the caller.
use vstd::prelude::*;

pub mod frame;
pub mod manifold;
pub mod shader;
pub mod sphere;

verus! {

} // verus!
