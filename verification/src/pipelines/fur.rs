//! The instanced fur-shell technique.
//!
//! The pipeline configuration — shaders, vertex layout, depth test
//! with `less` comparison and depth writes on — is fixed at creation
//! and owned by the GPU side. The verified state is the layer count:
//! every draw renders the whole mesh once per shell layer, and the
//! vertex stage derives the outward displacement from the instance
//! index.

use vstd::prelude::*;
use crate::pipelines::DrawCommand;

verus! {

/// The fur technique: an immutable shell layer count.
pub struct Fur {
    num_layers: u32,
}

impl Fur {
    /// The number of shell layers drawn per frame.
    pub closed spec fn layers(self) -> nat {
        self.num_layers as nat
    }

    /// Configures the technique with `num_layers` shell layers.
    pub fn new(num_layers: u32) -> (r: Fur)
        ensures
            r.layers() == num_layers as nat,
    {
        Fur { num_layers }
    }

    /// The draw call for one frame: all `num_indices` mesh indices,
    /// instanced once per shell layer, so the instance range is
    /// exactly `[0, layers)`.
    pub fn draw(&self, num_indices: u32) -> (c: DrawCommand)
        ensures
            c.index_count == num_indices,
            c.instance_count as nat == self.layers(),
    {
        DrawCommand { index_count: num_indices, instance_count: self.num_layers }
    }
}

} // verus!
