//! The vertex-buffer layout the pipeline declares: per-vertex stepping,
//! a three-float position at offset 0 and a two-float texture coordinate
//! at offset 12, over a 20-byte stride.

use vstd::prelude::*;
use crate::geometry::{Vertex, vertex_le_bytes};

verus! {

/// Format of one vertex attribute.
#[derive(Clone, Copy, Debug, PartialEq, Eq, Structural)]
pub enum VertexFormat {
    Float32x2,
    Float32x3,
}

/// How often the vertex fetcher advances through the buffer.
#[derive(Clone, Copy, Debug, PartialEq, Eq, Structural)]
pub enum VertexStepMode {
    Vertex,
    Instance,
}

/// One attribute of the vertex-buffer layout.
#[derive(Clone, Copy, Debug, PartialEq, Eq, Structural)]
pub struct VertexAttribute {
    pub offset: u64,
    pub shader_location: u32,
    pub format: VertexFormat,
}

/// A vertex-buffer layout: stride, step mode, and attribute list.
#[derive(Clone, Debug)]
pub struct VertexBufferLayout {
    pub array_stride: u64,
    pub step_mode: VertexStepMode,
    pub attributes: Vec<VertexAttribute>,
}

/// The one layout this renderer declares.
pub open spec fn is_pentagon_vertex_layout(l: VertexBufferLayout) -> bool {
    &&& l.array_stride == 20
    &&& l.step_mode == VertexStepMode::Vertex
    &&& l.attributes@.len() == 2
    &&& l.attributes@[0] == (VertexAttribute {
        offset: 0,
        shader_location: 0,
        format: VertexFormat::Float32x3,
    })
    &&& l.attributes@[1] == (VertexAttribute {
        offset: 12,
        shader_location: 1,
        format: VertexFormat::Float32x2,
    })
}

/// Builds the layout descriptor for the pentagon's vertex buffer.
pub fn vertex_layout() -> (r: VertexBufferLayout)
    ensures
        is_pentagon_vertex_layout(r),
{
    let mut attributes: Vec<VertexAttribute> = Vec::new();
    attributes.push(VertexAttribute {
        offset: 0,
        shader_location: 0,
        format: VertexFormat::Float32x3,
    });
    attributes.push(VertexAttribute {
        offset: 12,
        shader_location: 1,
        format: VertexFormat::Float32x2,
    });
    VertexBufferLayout { array_stride: 20, step_mode: VertexStepMode::Vertex, attributes }
}

/// Layout invariant: attribute 0 sits at offset 0, attribute 1 at offset 12,
/// the stride is 20 and stepping is per-vertex; and the stride equals the
/// byte image of one vertex, so consecutive vertices are tightly packed.
pub proof fn lemma_vertex_layout_invariant(l: VertexBufferLayout, v: Vertex)
    requires
        is_pentagon_vertex_layout(l),
    ensures
        l.attributes@[0].offset == 0,
        l.attributes@[1].offset == 12,
        l.array_stride == 20,
        l.step_mode == VertexStepMode::Vertex,
        l.array_stride == vertex_le_bytes(v).len(),
{
}

} // verus!
