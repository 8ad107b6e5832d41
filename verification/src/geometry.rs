//! Pentagon geometry: vertex data, the two index layouts, alignment padding,
//! and the little-endian byte images that are uploaded to GPU buffers.
//!
//! Positions and texture coordinates are IEEE 754 single-precision values;
//! the crate stores and serializes their bit patterns, so the byte image it
//! produces is exactly the tightly packed vertex buffer the pipeline expects.

use vstd::prelude::*;

verus! {

/// One vertex: three position components and two texture coordinates,
/// each the bit pattern of an IEEE 754 single-precision value.
#[derive(Clone, Copy, Debug, PartialEq, Eq, Structural)]
pub struct Vertex {
    pub position_x_bits: u32,
    pub position_y_bits: u32,
    pub position_z_bits: u32,
    pub tex_u_bits: u32,
    pub tex_v_bits: u32,
}

/// The four little-endian bytes of a 32-bit word.
pub open spec fn le_bytes_u32(x: u32) -> Seq<u8> {
    seq![x as u8, (x >> 8) as u8, (x >> 16) as u8, (x >> 24) as u8]
}

/// The two little-endian bytes of a 16-bit word.
pub open spec fn le_bytes_u16(x: u16) -> Seq<u8> {
    seq![x as u8, (x >> 8) as u8]
}

/// The 20-byte tightly packed image of one vertex: position at offset 0,
/// texture coordinates at offset 12.
pub open spec fn vertex_le_bytes(v: Vertex) -> Seq<u8> {
    le_bytes_u32(v.position_x_bits) + le_bytes_u32(v.position_y_bits)
        + le_bytes_u32(v.position_z_bits) + le_bytes_u32(v.tex_u_bits)
        + le_bytes_u32(v.tex_v_bits)
}

/// The byte image of a whole vertex sequence, vertex after vertex.
pub open spec fn vertices_le_bytes(vs: Seq<Vertex>) -> Seq<u8>
    decreases vs.len(),
{
    if vs.len() == 0 {
        Seq::empty()
    } else {
        vertices_le_bytes(vs.drop_last()) + vertex_le_bytes(vs.last())
    }
}

/// The byte image of an index sequence, two bytes per index.
pub open spec fn indices_le_bytes(idx: Seq<u16>) -> Seq<u8>
    decreases idx.len(),
{
    if idx.len() == 0 {
        Seq::empty()
    } else {
        indices_le_bytes(idx.drop_last()) + le_bytes_u16(idx.last())
    }
}

pub proof fn lemma_vertices_le_bytes_len(vs: Seq<Vertex>)
    ensures
        vertices_le_bytes(vs).len() == 20 * vs.len(),
    decreases vs.len(),
{
    if vs.len() > 0 {
        lemma_vertices_le_bytes_len(vs.drop_last());
    }
}

pub proof fn lemma_indices_le_bytes_len(idx: Seq<u16>)
    ensures
        indices_le_bytes(idx).len() == 2 * idx.len(),
    decreases idx.len(),
{
    if idx.len() > 0 {
        lemma_indices_le_bytes_len(idx.drop_last());
    }
}

/// The five pentagon vertices, counter-clockwise.
pub fn pentagon_vertices() -> (r: Vec<Vertex>)
    ensures
        r@.len() == 5,
        r@[0] == (Vertex {
            position_x_bits: 0xbdb1d0d5,
            position_y_bits: 0x3efc1c5c,
            position_z_bits: 0,
            tex_u_bits: 0x3ed38bcb,
            tex_v_bits: 0x3bf8e90a,
        }),
        r@[1] == (Vertex {
            position_x_bits: 0xbefd8236,
            position_y_bits: 0x3d8e835a,
            position_z_bits: 0,
            tex_u_bits: 0x3b9f7280,
            tex_v_bits: 0x3edc5f2a,
        }),
        r@[2] == (Vertex {
            position_x_bits: 0xbe607229,
            position_y_bits: 0xbee6175f,
            position_z_bits: 0,
            tex_u_bits: 0x3e8fc6ec,
            tex_v_bits: 0x3f730baf,
        }),
        r@[3] == (Vertex {
            position_x_bits: 0x3eb826aa,
            position_y_bits: 0xbeb1d51f,
            position_z_bits: 0,
            tex_u_bits: 0x3f5c1355,
            tex_v_bits: 0x3f58ea90,
        }),
        r@[4] == (Vertex {
            position_x_bits: 0x3ee208d8,
            position_y_bits: 0x3e705e9c,
            position_z_bits: 0,
            tex_u_bits: 0x3f71046c,
            tex_v_bits: 0x3e87d0b2,
        }),
{
    let mut r: Vec<Vertex> = Vec::new();
    r.push(Vertex {
        position_x_bits: 0xbdb1d0d5,
        position_y_bits: 0x3efc1c5c,
        position_z_bits: 0,
        tex_u_bits: 0x3ed38bcb,
        tex_v_bits: 0x3bf8e90a,
    });
    r.push(Vertex {
        position_x_bits: 0xbefd8236,
        position_y_bits: 0x3d8e835a,
        position_z_bits: 0,
        tex_u_bits: 0x3b9f7280,
        tex_v_bits: 0x3edc5f2a,
    });
    r.push(Vertex {
        position_x_bits: 0xbe607229,
        position_y_bits: 0xbee6175f,
        position_z_bits: 0,
        tex_u_bits: 0x3e8fc6ec,
        tex_v_bits: 0x3f730baf,
    });
    r.push(Vertex {
        position_x_bits: 0x3eb826aa,
        position_y_bits: 0xbeb1d51f,
        position_z_bits: 0,
        tex_u_bits: 0x3f5c1355,
        tex_v_bits: 0x3f58ea90,
    });
    r.push(Vertex {
        position_x_bits: 0x3ee208d8,
        position_y_bits: 0x3e705e9c,
        position_z_bits: 0,
        tex_u_bits: 0x3f71046c,
        tex_v_bits: 0x3e87d0b2,
    });
    r
}

/// The full pentagon fan: three triangles sharing vertex 4.
pub fn pentagon_indices() -> (r: Vec<u16>)
    ensures
        r@ =~= seq![0u16, 1u16, 4u16, 1u16, 2u16, 4u16, 2u16, 3u16, 4u16],
{
    let mut r: Vec<u16> = Vec::new();
    r.push(0);
    r.push(1);
    r.push(4);
    r.push(1);
    r.push(2);
    r.push(4);
    r.push(2);
    r.push(3);
    r.push(4);
    r
}

/// The two detached triangles: the fan with its middle triangle removed.
pub fn detached_indices() -> (r: Vec<u16>)
    ensures
        r@ =~= seq![0u16, 1u16, 4u16, 2u16, 3u16, 4u16],
{
    let mut r: Vec<u16> = Vec::new();
    r.push(0);
    r.push(1);
    r.push(4);
    r.push(2);
    r.push(3);
    r.push(4);
    r
}

/// An index buffer: the stored (possibly padded) indices, and the number of
/// indices a draw actually submits.
#[derive(Clone, Debug)]
pub struct IndexBuffer {
    pub data: Vec<u16>,
    pub logical_count: u32,
}

impl IndexBuffer {
    /// The buffer's byte image is 4-byte aligned, every stored index is
    /// drawn or a zero pad, and the draw count fits the storage.
    pub open spec fn well_formed(self) -> bool {
        &&& self.data@.len() % 2 == 0
        &&& self.logical_count <= self.data@.len()
        &&& forall|i: int|
            self.logical_count <= i < self.data@.len() ==> self.data@[i] == 0
    }

    /// Pads an index list with a single zero index when its length is odd,
    /// so that the two-byte-per-index byte image is a multiple of 4 bytes.
    pub fn from_indices(idx: Vec<u16>) -> (r: IndexBuffer)
        requires
            idx@.len() < 0x1_0000_0000,
        ensures
            r.well_formed(),
            r.logical_count == idx@.len(),
            r.data@.len() == idx@.len() + (idx@.len() % 2),
            r.data@.subrange(0, idx@.len() as int) =~= idx@,
    {
        let logical_count: u32 = idx.len() as u32;
        let mut data = idx;
        if data.len() % 2 == 1 {
            data.push(0);
        }
        IndexBuffer { data, logical_count }
    }

    /// The number of bytes the stored indices occupy; a multiple of 4 for
    /// every well-formed buffer.
    pub fn byte_len(&self) -> (r: usize)
        requires
            self.data@.len() * 2 <= usize::MAX,
        ensures
            r == 2 * self.data@.len(),
            self.well_formed() ==> r % 4 == 0,
    {
        self.data.len() * 2
    }
}

/// Alignment of every well-formed index buffer: its byte image is a whole
/// number of 4-byte words, and the drawn range never leaves the storage.
pub proof fn lemma_index_buffer_aligned(b: IndexBuffer)
    requires
        b.well_formed(),
    ensures
        indices_le_bytes(b.data@).len() % 4 == 0,
        b.logical_count <= b.data@.len(),
{
    lemma_indices_le_bytes_len(b.data@);
}

/// Serializes vertices to their tightly packed little-endian byte image.
pub fn vertex_bytes(vs: &Vec<Vertex>) -> (r: Vec<u8>)
    requires
        vs@.len() * 20 <= usize::MAX,
    ensures
        r@ =~= vertices_le_bytes(vs@),
        r@.len() == 20 * vs@.len(),
{
    let mut r: Vec<u8> = Vec::new();
    let mut i: usize = 0;
    while i < vs.len()
        invariant
            i <= vs@.len(),
            vs@.len() * 20 <= usize::MAX,
            r@ =~= vertices_le_bytes(vs@.subrange(0, i as int)),
            r@.len() == 20 * i,
        decreases vs@.len() - i,
    {
        let v = vs[i];
        push_le_u32(&mut r, v.position_x_bits);
        push_le_u32(&mut r, v.position_y_bits);
        push_le_u32(&mut r, v.position_z_bits);
        push_le_u32(&mut r, v.tex_u_bits);
        push_le_u32(&mut r, v.tex_v_bits);
        proof {
            let pre = vs@.subrange(0, i as int);
            let cur = vs@.subrange(0, i + 1);
            assert(cur.drop_last() =~= pre);
            assert(cur.last() == vs@[i as int]);
        }
        i += 1;
    }
    proof {
        assert(vs@.subrange(0, vs@.len() as int) =~= vs@);
        lemma_vertices_le_bytes_len(vs@);
    }
    r
}

/// Serializes indices to their little-endian byte image, two bytes each.
pub fn index_bytes(idx: &Vec<u16>) -> (r: Vec<u8>)
    requires
        idx@.len() * 2 <= usize::MAX,
    ensures
        r@ =~= indices_le_bytes(idx@),
        r@.len() == 2 * idx@.len(),
{
    let mut r: Vec<u8> = Vec::new();
    let mut i: usize = 0;
    while i < idx.len()
        invariant
            i <= idx@.len(),
            idx@.len() * 2 <= usize::MAX,
            r@ =~= indices_le_bytes(idx@.subrange(0, i as int)),
            r@.len() == 2 * i,
        decreases idx@.len() - i,
    {
        let x = idx[i];
        r.push(#[verifier::truncate] (x as u8));
        r.push(#[verifier::truncate] ((x >> 8) as u8));
        proof {
            let pre = idx@.subrange(0, i as int);
            let cur = idx@.subrange(0, i + 1);
            assert(cur.drop_last() =~= pre);
            assert(cur.last() == idx@[i as int]);
        }
        i += 1;
    }
    proof {
        assert(idx@.subrange(0, idx@.len() as int) =~= idx@);
        lemma_indices_le_bytes_len(idx@);
    }
    r
}

/// Appends the four little-endian bytes of a 32-bit word.
fn push_le_u32(out: &mut Vec<u8>, x: u32)
    ensures
        final(out)@ =~= old(out)@ + le_bytes_u32(x),
{
    out.push(#[verifier::truncate] (x as u8));
    out.push(#[verifier::truncate] ((x >> 8) as u8));
    out.push(#[verifier::truncate] ((x >> 16) as u8));
    out.push(#[verifier::truncate] ((x >> 24) as u8));
}

} // verus!
