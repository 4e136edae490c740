//! Verified integer core of a stochastic ray tracer: the render settings and
//! their validation, the traversal order of the render loop, the recursion
//! bound of a light path, and the plain-text PPM encoding of the image.
use vstd::prelude::*;

pub mod path;
pub mod ppm;
pub mod schedule;
pub mod settings;

verus! {

} // verus!
