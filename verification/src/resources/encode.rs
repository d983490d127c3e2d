//! Little-endian serialization of the GPU-bound record types.
//!
//! The device consumes flat byte ranges; these encoders pin down, byte
//! for byte, what a record sequence looks like there, so the owner of
//! a device buffer can apply a staged transfer by slicing the encoded
//! host records at record-size granularity.

use vstd::prelude::*;
use crate::resources::model::{Vertex, Morphs};
use crate::pipelines::debug::DebugVertex;

verus! {

/// The four little-endian bytes of a 32-bit scalar.
pub open spec fn le_bytes4(v: u32) -> Seq<u8> {
    seq![
        (v % 256) as u8,
        ((v / 256) % 256) as u8,
        ((v / 65536) % 256) as u8,
        ((v / 16777216) % 256) as u8,
    ]
}

/// The two little-endian bytes of a 16-bit scalar.
pub open spec fn le_bytes2(v: u16) -> Seq<u8> {
    seq![(v % 256) as u8, ((v / 256) % 256) as u8]
}

/// The eight 32-bit scalars of one vertex record, in field order.
pub open spec fn vertex_scalars(v: Vertex) -> Seq<u32> {
    seq![
        v.position.x, v.position.y, v.position.z,
        v.normal.x, v.normal.y, v.normal.z,
        v.tex_coord.x, v.tex_coord.y,
    ]
}

/// The six 32-bit scalars of one line vertex, in field order.
pub open spec fn debug_vertex_scalars(v: DebugVertex) -> Seq<u32> {
    seq![
        v.position.x, v.position.y, v.position.z,
        v.color.x, v.color.y, v.color.z,
    ]
}

/// The twelve 32-bit scalars of one morph record, in field order.
pub open spec fn morph_scalars(m: Morphs) -> Seq<u32> {
    seq![
        m.d0_position.x, m.d0_position.y, m.d0_position.z,
        m.d0_normal.x, m.d0_normal.y, m.d0_normal.z,
        m.d1_position.x, m.d1_position.y, m.d1_position.z,
        m.d1_normal.x, m.d1_normal.y, m.d1_normal.z,
    ]
}

/// Appends the four little-endian bytes of `v` to `out`.
fn push_le4(out: &mut Vec<u8>, v: u32)
    requires
        old(out)@.len() + 4 <= usize::MAX,
    ensures
        final(out)@ == old(out)@ + le_bytes4(v),
{
    out.push((v % 256) as u8);
    out.push(((v / 256) % 256) as u8);
    out.push(((v / 65536) % 256) as u8);
    out.push(((v / 16777216) % 256) as u8);
    proof {
        assert(out@ =~= old(out)@ + le_bytes4(v));
    }
}

/// Encodes 32-bit scalars as consecutive four-byte little-endian
/// groups: byte range `[4 * i, 4 * (i + 1))` holds exactly scalar `i`.
pub fn encode_u32s(values: &Vec<u32>) -> (r: Vec<u8>)
    requires
        values@.len() * 4 <= usize::MAX,
    ensures
        r@.len() == values@.len() * 4,
        forall|i: int| 0 <= i < values@.len()
            ==> r@.subrange(4 * i, 4 * (i + 1)) =~= le_bytes4(values@[i]),
{
    let mut out: Vec<u8> = Vec::new();
    let mut i: usize = 0;
    while i < values.len()
        invariant
            0 <= i <= values@.len(),
            values@.len() * 4 <= usize::MAX,
            out@.len() == i * 4,
            forall|j: int| 0 <= j < i
                ==> out@.subrange(4 * j, 4 * (j + 1)) =~= le_bytes4(values@[j]),
        decreases values@.len() - i,
    {
        let ghost before = out@;
        push_le4(&mut out, values[i]);
        proof {
            assert forall|j: int| 0 <= j < i + 1 implies
                out@.subrange(4 * j, 4 * (j + 1)) =~= le_bytes4(values@[j]) by {
                if j < i {
                    assert(out@.subrange(4 * j, 4 * (j + 1))
                        =~= before.subrange(4 * j, 4 * (j + 1)));
                }
            }
        }
        i = i + 1;
    }
    out
}

/// Encodes index values as consecutive two-byte little-endian groups;
/// every value must fit the narrow width.
pub fn encode_u16_indices(values: &Vec<u32>) -> (r: Vec<u8>)
    requires
        values@.len() * 2 <= usize::MAX,
        forall|i: int| 0 <= i < values@.len() ==> values@[i] < 65536,
    ensures
        r@.len() == values@.len() * 2,
        forall|i: int| 0 <= i < values@.len()
            ==> r@.subrange(2 * i, 2 * (i + 1)) =~= le_bytes2(values@[i] as u16),
{
    let mut out: Vec<u8> = Vec::new();
    let mut i: usize = 0;
    while i < values.len()
        invariant
            0 <= i <= values@.len(),
            values@.len() * 2 <= usize::MAX,
            forall|k: int| 0 <= k < values@.len() ==> values@[k] < 65536,
            out@.len() == i * 2,
            forall|j: int| 0 <= j < i
                ==> out@.subrange(2 * j, 2 * (j + 1)) =~= le_bytes2(values@[j] as u16),
        decreases values@.len() - i,
    {
        let ghost before = out@;
        let v = values[i] as u16;
        out.push((v % 256) as u8);
        out.push(((v / 256) % 256) as u8);
        proof {
            assert(out@ =~= before + le_bytes2(values@[i as int] as u16));
            assert forall|j: int| 0 <= j < i + 1 implies
                out@.subrange(2 * j, 2 * (j + 1)) =~= le_bytes2(values@[j] as u16) by {
                if j < i {
                    assert(out@.subrange(2 * j, 2 * (j + 1))
                        =~= before.subrange(2 * j, 2 * (j + 1)));
                }
            }
        }
        i = i + 1;
    }
    out
}

/// Flattens vertex records into their 32-bit scalars, eight per
/// record, in record order.
pub fn vertex_scalar_stream(vertices: &Vec<Vertex>) -> (r: Vec<u32>)
    requires
        vertices@.len() * 8 <= usize::MAX,
    ensures
        r@.len() == vertices@.len() * 8,
        forall|i: int| 0 <= i < vertices@.len()
            ==> r@.subrange(8 * i, 8 * (i + 1)) =~= vertex_scalars(vertices@[i]),
{
    let mut out: Vec<u32> = Vec::new();
    let mut i: usize = 0;
    while i < vertices.len()
        invariant
            0 <= i <= vertices@.len(),
            vertices@.len() * 8 <= usize::MAX,
            out@.len() == i * 8,
            forall|j: int| 0 <= j < i
                ==> out@.subrange(8 * j, 8 * (j + 1)) =~= vertex_scalars(vertices@[j]),
        decreases vertices@.len() - i,
    {
        let ghost before = out@;
        let v = vertices[i];
        out.push(v.position.x);
        out.push(v.position.y);
        out.push(v.position.z);
        out.push(v.normal.x);
        out.push(v.normal.y);
        out.push(v.normal.z);
        out.push(v.tex_coord.x);
        out.push(v.tex_coord.y);
        proof {
            assert(out@ =~= before + vertex_scalars(vertices@[i as int]));
            assert forall|j: int| 0 <= j < i + 1 implies
                out@.subrange(8 * j, 8 * (j + 1)) =~= vertex_scalars(vertices@[j]) by {
                if j < i {
                    assert(out@.subrange(8 * j, 8 * (j + 1))
                        =~= before.subrange(8 * j, 8 * (j + 1)));
                }
            }
        }
        i = i + 1;
    }
    out
}

/// Flattens morph records into their 32-bit scalars, twelve per
/// record, in record order.
pub fn morph_scalar_stream(morphs: &Vec<Morphs>) -> (r: Vec<u32>)
    requires
        morphs@.len() * 12 <= usize::MAX,
    ensures
        r@.len() == morphs@.len() * 12,
        forall|i: int| 0 <= i < morphs@.len()
            ==> r@.subrange(12 * i, 12 * (i + 1)) =~= morph_scalars(morphs@[i]),
{
    let mut out: Vec<u32> = Vec::new();
    let mut i: usize = 0;
    while i < morphs.len()
        invariant
            0 <= i <= morphs@.len(),
            morphs@.len() * 12 <= usize::MAX,
            out@.len() == i * 12,
            forall|j: int| 0 <= j < i
                ==> out@.subrange(12 * j, 12 * (j + 1)) =~= morph_scalars(morphs@[j]),
        decreases morphs@.len() - i,
    {
        let ghost before = out@;
        let m = morphs[i];
        out.push(m.d0_position.x);
        out.push(m.d0_position.y);
        out.push(m.d0_position.z);
        out.push(m.d0_normal.x);
        out.push(m.d0_normal.y);
        out.push(m.d0_normal.z);
        out.push(m.d1_position.x);
        out.push(m.d1_position.y);
        out.push(m.d1_position.z);
        out.push(m.d1_normal.x);
        out.push(m.d1_normal.y);
        out.push(m.d1_normal.z);
        proof {
            assert(out@ =~= before + morph_scalars(morphs@[i as int]));
            assert forall|j: int| 0 <= j < i + 1 implies
                out@.subrange(12 * j, 12 * (j + 1)) =~= morph_scalars(morphs@[j]) by {
                if j < i {
                    assert(out@.subrange(12 * j, 12 * (j + 1))
                        =~= before.subrange(12 * j, 12 * (j + 1)));
                }
            }
        }
        i = i + 1;
    }
    out
}

/// Flattens line vertices into their 32-bit scalars, six per record.
pub fn debug_vertex_scalar_stream(vertices: &Vec<DebugVertex>) -> (r: Vec<u32>)
    requires
        vertices@.len() * 6 <= usize::MAX,
    ensures
        r@.len() == vertices@.len() * 6,
        forall|i: int| 0 <= i < vertices@.len()
            ==> r@.subrange(6 * i, 6 * (i + 1)) =~= debug_vertex_scalars(vertices@[i]),
{
    let mut out: Vec<u32> = Vec::new();
    let mut i: usize = 0;
    while i < vertices.len()
        invariant
            0 <= i <= vertices@.len(),
            vertices@.len() * 6 <= usize::MAX,
            out@.len() == i * 6,
            forall|j: int| 0 <= j < i
                ==> out@.subrange(6 * j, 6 * (j + 1)) =~= debug_vertex_scalars(vertices@[j]),
        decreases vertices@.len() - i,
    {
        let ghost before = out@;
        let v = vertices[i];
        out.push(v.position.x);
        out.push(v.position.y);
        out.push(v.position.z);
        out.push(v.color.x);
        out.push(v.color.y);
        out.push(v.color.z);
        proof {
            assert(out@ =~= before + debug_vertex_scalars(vertices@[i as int]));
            assert forall|j: int| 0 <= j < i + 1 implies
                out@.subrange(6 * j, 6 * (j + 1)) =~= debug_vertex_scalars(vertices@[j]) by {
                if j < i {
                    assert(out@.subrange(6 * j, 6 * (j + 1))
                        =~= before.subrange(6 * j, 6 * (j + 1)));
                }
            }
        }
        i = i + 1;
    }
    out
}

} // verus!
