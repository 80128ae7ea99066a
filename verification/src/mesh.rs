//! Triangle meshes produced by tessellating a shape outline, and the exact
//! byte layout in which they are uploaded into GPU buffers.
//!
//! A mesh's vertex buffer holds the vertices' coordinates interleaved
//! (`x0 y0 x1 y1 ...`), each coordinate as the four little-endian bytes of
//! its scalar bit pattern; its index buffer holds each 16-bit index as two
//! little-endian bytes.

use vstd::bytes::{
    lemma_auto_spec_u16_to_from_le_bytes, lemma_auto_spec_u32_to_from_le_bytes,
    spec_u16_to_le_bytes, spec_u32_to_le_bytes, u16_to_le_bytes, u32_to_le_bytes,
};
use vstd::prelude::*;

verus! {

/// A vertex of a tessellated outline: a 2D position, each coordinate the bit
/// pattern of a single-precision scalar.
#[derive(Clone, Copy, Debug, PartialEq, Eq, Structural)]
pub struct Vertex {
    pub x: u32,
    pub y: u32,
}

/// A triangle mesh: vertices plus 16-bit indices, three per triangle.
#[derive(Clone, Debug)]
pub struct Mesh {
    pub vertices: Vec<Vertex>,
    pub indices: Vec<u16>,
}

/// Why tessellating an outline failed.  Only circle-based outlines surface
/// this as a recoverable error; a rectangle outline that fails to tessellate
/// is treated as an unrecoverable condition by the caller.
#[derive(Clone, Copy, Debug, PartialEq, Eq, Structural)]
pub enum TessellationError {
    /// A shape parameter the tessellator does not support.
    UnsupportedParameter,
    /// The mesh outgrew the 16-bit index space.
    TooManyVertices,
    /// The tessellator failed internally.
    Internal,
}

/// The vertex-buffer contents for `vs`: the coordinates interleaved, each as
/// four little-endian bytes.
pub open spec fn vertex_bytes_spec(vs: Seq<Vertex>) -> Seq<u8>
    decreases vs.len(),
{
    if vs.len() == 0 {
        Seq::empty()
    } else {
        vertex_bytes_spec(vs.drop_last()) + spec_u32_to_le_bytes(vs.last().x)
            + spec_u32_to_le_bytes(vs.last().y)
    }
}

/// The index-buffer contents for `is`: each index as two little-endian
/// bytes.
pub open spec fn index_bytes_spec(is: Seq<u16>) -> Seq<u8>
    decreases is.len(),
{
    if is.len() == 0 {
        Seq::empty()
    } else {
        index_bytes_spec(is.drop_last()) + spec_u16_to_le_bytes(is.last())
    }
}

/// The vertex buffer holds eight bytes per vertex.
pub proof fn lemma_vertex_bytes_len(vs: Seq<Vertex>)
    ensures
        vertex_bytes_spec(vs).len() == 8 * vs.len(),
    decreases vs.len(),
{
    lemma_auto_spec_u32_to_from_le_bytes();
    if vs.len() > 0 {
        lemma_vertex_bytes_len(vs.drop_last());
    }
}

/// The index buffer holds two bytes per index.
pub proof fn lemma_index_bytes_len(is: Seq<u16>)
    ensures
        index_bytes_spec(is).len() == 2 * is.len(),
    decreases is.len(),
{
    lemma_auto_spec_u16_to_from_le_bytes();
    if is.len() > 0 {
        lemma_index_bytes_len(is.drop_last());
    }
}

impl Mesh {
    /// Serializes the vertices for upload: coordinates interleaved, each as
    /// four little-endian bytes.
    pub fn vertex_bytes(&self) -> (r: Vec<u8>)
        ensures
            r@ == vertex_bytes_spec(self.vertices@),
            r@.len() == 8 * self.vertices@.len(),
    {
        proof {
            lemma_vertex_bytes_len(self.vertices@);
        }
        let mut out: Vec<u8> = Vec::new();
        let mut i: usize = 0;
        while i < self.vertices.len()
            invariant
                i <= self.vertices.len(),
                out@ == vertex_bytes_spec(self.vertices@.take(i as int)),
            decreases self.vertices.len() - i,
        {
            let v = self.vertices[i];
            let mut xb = u32_to_le_bytes(v.x);
            let mut yb = u32_to_le_bytes(v.y);
            out.append(&mut xb);
            out.append(&mut yb);
            proof {
                let taken = self.vertices@.take(i + 1);
                assert(taken.drop_last() =~= self.vertices@.take(i as int));
                assert(taken.last() == self.vertices@[i as int]);
            }
            i = i + 1;
        }
        proof {
            assert(self.vertices@.take(self.vertices@.len() as int) =~= self.vertices@);
        }
        out
    }

    /// Serializes the indices for upload: each as two little-endian bytes.
    pub fn index_bytes(&self) -> (r: Vec<u8>)
        ensures
            r@ == index_bytes_spec(self.indices@),
            r@.len() == 2 * self.indices@.len(),
    {
        proof {
            lemma_index_bytes_len(self.indices@);
        }
        let mut out: Vec<u8> = Vec::new();
        let mut i: usize = 0;
        while i < self.indices.len()
            invariant
                i <= self.indices.len(),
                out@ == index_bytes_spec(self.indices@.take(i as int)),
            decreases self.indices.len() - i,
        {
            let mut nb = u16_to_le_bytes(self.indices[i]);
            out.append(&mut nb);
            proof {
                let taken = self.indices@.take(i + 1);
                assert(taken.drop_last() =~= self.indices@.take(i as int));
                assert(taken.last() == self.indices@[i as int]);
            }
            i = i + 1;
        }
        proof {
            assert(self.indices@.take(self.indices@.len() as int) =~= self.indices@);
        }
        out
    }
}

} // verus!
