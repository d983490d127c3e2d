//! The debug line overlay technique.
//!
//! Lines are staged as a vertex buffer and an index buffer that grow
//! through one shared transaction: every pushed vertex appends one
//! index that references exactly that vertex, so a caller building a
//! polyline supplies positions alone and the indices come out
//! consecutive. `clear` resets both buffers for the next frame's
//! debug content.

use vstd::prelude::*;
use crate::pipelines::DrawCommand;
use crate::resources::buffer::{close_capacity, close_device, close_transfer, Batch, CpuBuffer, Transfer};
use crate::resources::model::Vec3Bits;

verus! {

/// Starting record capacity of both line buffers.
pub const LINE_CAPACITY: usize = 64;

/// One line vertex: a position and a color, as raw 32-bit scalar
/// components for the GPU.
#[derive(Debug, Clone, Copy, PartialEq, Eq, Structural)]
pub struct DebugVertex {
    pub position: Vec3Bits,
    pub color: Vec3Bits,
}

impl DebugVertex {
    pub fn new(position: Vec3Bits, color: Vec3Bits) -> (r: DebugVertex)
        ensures
            r.position == position,
            r.color == color,
    {
        DebugVertex { position, color }
    }
}

/// The line technique's dynamic state: the staged vertex and index
/// buffers its draw call reads.
pub struct DebugPipeline {
    vertex_buffer: CpuBuffer<DebugVertex>,
    index_buffer: CpuBuffer<u32>,
}

impl DebugPipeline {
    /// The staged line vertices.
    pub closed spec fn vertices(self) -> Seq<DebugVertex> {
        self.vertex_buffer.host()
    }

    /// The staged indices; one per vertex, in vertex order.
    pub closed spec fn indices(self) -> Seq<u32> {
        self.index_buffer.host()
    }

    /// Device-side models of the two buffers.
    pub closed spec fn vertex_device(self) -> Seq<DebugVertex> {
        self.vertex_buffer.device()
    }

    pub closed spec fn index_device(self) -> Seq<u32> {
        self.index_buffer.device()
    }

    /// Allocation capacities of the two buffers, in records.
    pub closed spec fn vertex_cap(self) -> nat {
        self.vertex_buffer.cap()
    }

    pub closed spec fn index_cap(self) -> nat {
        self.index_buffer.cap()
    }

    /// Both buffers mirror their device side, every vertex has exactly
    /// one index, and index `i` references vertex `i`.
    pub closed spec fn wf(self) -> bool {
        &&& self.vertex_buffer.synced()
        &&& self.index_buffer.synced()
        &&& self.indices().len() == self.vertices().len()
        &&& self.vertices().len() < u32::MAX
        &&& forall|i: int| 0 <= i < self.indices().len() ==> self.indices()[i] == i as u32
    }

    /// Creates the technique state with both buffers empty at the
    /// starting capacity.
    pub fn new() -> (r: DebugPipeline)
        ensures
            r.wf(),
            r.vertices() == Seq::<DebugVertex>::empty(),
            r.indices() == Seq::<u32>::empty(),
            r.vertex_cap() == LINE_CAPACITY as nat,
            r.index_cap() == LINE_CAPACITY as nat,
    {
        DebugPipeline {
            vertex_buffer: CpuBuffer::with_capacity(LINE_CAPACITY),
            index_buffer: CpuBuffer::with_capacity(LINE_CAPACITY),
        }
    }

    /// Opens the per-frame line transaction on both buffers at once.
    pub fn batch(self) -> (b: DebugBatch)
        requires
            self.wf(),
        ensures
            b.wf(),
            b.vertices_view() == self.vertices(),
            b.indices_view() == self.indices(),
            b.vertex_device() == self.vertex_device(),
            b.index_device() == self.index_device(),
            b.vertex_cap() == self.vertex_cap(),
            b.index_cap() == self.index_cap(),
            b.opened_at() == self.vertices().len(),
    {
        DebugBatch::new(self)
    }

    /// Empties both staged buffers for the next frame; the device
    /// allocations keep their size.
    pub fn clear(&mut self)
        requires
            old(self).wf(),
        ensures
            final(self).wf(),
            final(self).vertices() == Seq::<DebugVertex>::empty(),
            final(self).indices() == Seq::<u32>::empty(),
            final(self).vertex_device() == old(self).vertex_device(),
            final(self).index_device() == old(self).index_device(),
            final(self).vertex_cap() == old(self).vertex_cap(),
            final(self).index_cap() == old(self).index_cap(),
    {
        self.vertex_buffer.clear();
        self.index_buffer.clear();
    }

    /// The staged line vertices, for the device side to serialize.
    pub fn vertex_records(&self) -> (r: &Vec<DebugVertex>)
        ensures
            r@ == self.vertices(),
    {
        self.vertex_buffer.records()
    }

    /// The staged index values, for the device side to serialize.
    pub fn index_records(&self) -> (r: &Vec<u32>)
        ensures
            r@ == self.indices(),
    {
        self.index_buffer.records()
    }

    /// The draw call for the staged lines: every index, one instance.
    pub fn draw_lines(&self) -> (c: DrawCommand)
        requires
            self.wf(),
        ensures
            c.index_count == self.indices().len(),
            c.instance_count == 1,
    {
        let n = self.index_buffer.len();
        DrawCommand { index_count: n as u32, instance_count: 1 }
    }
}

/// A line transaction: pushes append a vertex and the index that
/// references it, keeping the two buffers in lockstep.
pub struct DebugBatch {
    current_vertex: u32,
    vertices: Batch<DebugVertex>,
    indices: Batch<u32>,
}

impl DebugBatch {
    pub closed spec fn vertices_view(self) -> Seq<DebugVertex> {
        self.vertices.host()
    }

    pub closed spec fn indices_view(self) -> Seq<u32> {
        self.indices.host()
    }

    pub closed spec fn vertex_device(self) -> Seq<DebugVertex> {
        self.vertices.device()
    }

    pub closed spec fn index_device(self) -> Seq<u32> {
        self.indices.device()
    }

    pub closed spec fn vertex_cap(self) -> nat {
        self.vertices.cap()
    }

    pub closed spec fn index_cap(self) -> nat {
        self.indices.cap()
    }

    /// The vertex count at which the transaction opened.
    pub closed spec fn opened_at(self) -> nat {
        self.vertices.opened_at()
    }

    /// Both underlying transactions are sound, they opened together,
    /// the counter sits at the vertex count, and index `i` references
    /// vertex `i` throughout.
    pub closed spec fn wf(self) -> bool {
        &&& self.vertices.wf()
        &&& self.indices.wf()
        &&& self.current_vertex as nat == self.vertices.host().len()
        &&& self.indices.host().len() == self.vertices.host().len()
        &&& self.indices.opened_at() == self.vertices.opened_at()
        &&& self.vertices.host().len() < u32::MAX
        &&& forall|i: int| 0 <= i < self.indices.host().len()
            ==> self.indices.host()[i] == i as u32
    }

    /// Opens the line transaction: both buffers begin a batch and the
    /// index counter starts at the number of vertices already staged.
    pub fn new(pipeline: DebugPipeline) -> (b: DebugBatch)
        requires
            pipeline.wf(),
        ensures
            b.wf(),
            b.vertices_view() == pipeline.vertices(),
            b.indices_view() == pipeline.indices(),
            b.vertex_device() == pipeline.vertex_device(),
            b.index_device() == pipeline.index_device(),
            b.vertex_cap() == pipeline.vertex_cap(),
            b.index_cap() == pipeline.index_cap(),
            b.opened_at() == pipeline.vertices().len(),
    {
        let DebugPipeline { vertex_buffer, index_buffer } = pipeline;
        let current_vertex = vertex_buffer.len() as u32;
        DebugBatch {
            current_vertex,
            vertices: vertex_buffer.batch(),
            indices: index_buffer.batch(),
        }
    }

    /// Appends one vertex and the auto-incremented index referencing
    /// it: the new index equals the position of the vertex it points
    /// at.
    pub fn push_vertex(&mut self, vertex: DebugVertex)
        requires
            old(self).wf(),
            old(self).vertices_view().len() + 1 < u32::MAX,
        ensures
            final(self).wf(),
            final(self).vertices_view() == old(self).vertices_view().push(vertex),
            final(self).indices_view() == old(self).indices_view().push(
                old(self).vertices_view().len() as u32,
            ),
            final(self).vertex_device() == old(self).vertex_device(),
            final(self).index_device() == old(self).index_device(),
            final(self).vertex_cap() == old(self).vertex_cap(),
            final(self).index_cap() == old(self).index_cap(),
            final(self).opened_at() == old(self).opened_at(),
    {
        self.vertices.push(vertex);
        self.indices.push(self.current_vertex);
        self.current_vertex = self.current_vertex + 1;
    }

    /// Closes both transactions and returns the technique state with
    /// the two transfers — vertices first, indices second — that the
    /// device side must perform.
    pub fn close(self) -> (r: (DebugPipeline, Transfer, Transfer))
        requires
            self.wf(),
        ensures
            r.0.wf(),
            r.0.vertices() == self.vertices_view(),
            r.0.indices() == self.indices_view(),
            r.1 == close_transfer(self.vertices_view().len(), self.vertex_cap(), self.opened_at()),
            r.2 == close_transfer(self.indices_view().len(), self.index_cap(), self.opened_at()),
            r.0.vertex_device() == close_device(
                self.vertex_device(), self.vertices_view(), self.vertex_cap(), self.opened_at(),
            ),
            r.0.index_device() == close_device(
                self.index_device(), self.indices_view(), self.index_cap(), self.opened_at(),
            ),
            r.0.vertex_cap() == close_capacity(
                self.vertices_view().len(), self.vertex_cap(), self.opened_at(),
            ),
            r.0.index_cap() == close_capacity(
                self.indices_view().len(), self.index_cap(), self.opened_at(),
            ),
    {
        let DebugBatch { current_vertex, vertices, indices } = self;
        let (vertex_buffer, vt) = vertices.close();
        let (index_buffer, it) = indices.close();
        (DebugPipeline { vertex_buffer, index_buffer }, vt, it)
    }
}

/// Law: in any sound line state, the staged indices are exactly the
/// consecutive sequence `0, 1, ..., n - 1` for its `n` vertices — each
/// index references the vertex pushed by the same call, in push order.
pub proof fn lemma_indices_consecutive(b: DebugBatch)
    requires
        b.wf(),
    ensures
        b.indices_view() =~= Seq::new(b.vertices_view().len(), |i: int| i as u32),
{
}

} // verus!
