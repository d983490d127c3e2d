//! Render techniques: immutable pipeline configuration and the draw
//! calls issued against supplied mesh and camera data.

pub mod debug;
pub mod fur;

use vstd::prelude::*;

verus! {

/// One indexed draw call: `index_count` indices starting at the first
/// one, base vertex zero, and instances `[0, instance_count)`.
#[derive(Debug, Clone, Copy, PartialEq, Eq, Structural)]
pub struct DrawCommand {
    pub index_count: u32,
    pub instance_count: u32,
}

} // verus!
