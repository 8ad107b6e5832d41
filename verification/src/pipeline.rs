//! The render pipeline's fixed-function state: triangle-list topology with
//! back-face culling, a single replace-blended color target in the surface's
//! preferred format, no depth/stencil, and single-sample rasterization.

use vstd::prelude::*;
use crate::layout::{VertexBufferLayout, is_pentagon_vertex_layout, vertex_layout};
use crate::swapchain::TextureFormat;

verus! {

/// How vertices are assembled into primitives.
#[derive(Clone, Copy, Debug, PartialEq, Eq, Structural)]
pub enum PrimitiveTopology {
    PointList,
    LineList,
    TriangleList,
}

/// Which winding order counts as front-facing.
#[derive(Clone, Copy, Debug, PartialEq, Eq, Structural)]
pub enum FrontFace {
    Ccw,
    Cw,
}

/// Which faces are culled.
#[derive(Clone, Copy, Debug, PartialEq, Eq, Structural)]
pub enum Face {
    Front,
    Back,
}

/// How polygons are rasterized.
#[derive(Clone, Copy, Debug, PartialEq, Eq, Structural)]
pub enum PolygonMode {
    Fill,
    Line,
    Point,
}

/// How a fragment is combined with the color already in the target.
#[derive(Clone, Copy, Debug, PartialEq, Eq, Structural)]
pub enum BlendState {
    Replace,
    AlphaBlending,
}

/// Color write mask bit: the red channel.
pub const COLOR_WRITE_RED: u32 = 0b0001;
/// Color write mask bit: the green channel.
pub const COLOR_WRITE_GREEN: u32 = 0b0010;
/// Color write mask bit: the blue channel.
pub const COLOR_WRITE_BLUE: u32 = 0b0100;
/// Color write mask bit: the alpha channel.
pub const COLOR_WRITE_ALPHA: u32 = 0b1000;
/// Color write mask: all four channels.
pub const COLOR_WRITE_ALL: u32 = 0b1111;

/// The primitive-assembly and rasterizer state.
#[derive(Clone, Copy, Debug, PartialEq, Eq, Structural)]
pub struct PrimitiveState {
    pub topology: PrimitiveTopology,
    pub strip_index_format: Option<u32>,
    pub front_face: FrontFace,
    pub cull_mode: Option<Face>,
    pub polygon_mode: PolygonMode,
    pub clamp_depth: bool,
    pub conservative: bool,
}

/// One color target of the fragment stage.
#[derive(Clone, Copy, Debug, PartialEq, Eq, Structural)]
pub struct ColorTargetState {
    pub format: TextureFormat,
    pub blend: Option<BlendState>,
    pub write_mask: u32,
}

/// The multisample state.
#[derive(Clone, Copy, Debug, PartialEq, Eq, Structural)]
pub struct MultisampleState {
    pub count: u32,
    pub mask: u64,
    pub alpha_to_coverage_enabled: bool,
}

/// Everything the pipeline fixes at creation: the shader entry points, the
/// vertex-buffer layout, one bind-group-layout slot, one color target, and
/// the fixed-function state.
#[derive(Clone, Debug)]
pub struct PipelinePlan {
    pub vertex_entry_point: &'static str,
    pub fragment_entry_point: &'static str,
    pub vertex_buffers: Vec<VertexBufferLayout>,
    pub bind_group_layout_slots: u32,
    pub push_constant_ranges: u32,
    pub primitive: PrimitiveState,
    pub color_target: ColorTargetState,
    pub has_depth_stencil: bool,
    pub multisample: MultisampleState,
}

/// The fixed-function state this renderer always uses.
pub open spec fn is_pentagon_pipeline(p: PipelinePlan, surface_format: TextureFormat) -> bool {
    &&& p.vertex_entry_point@ == "main"@
    &&& p.fragment_entry_point@ == "main"@
    &&& p.vertex_buffers@.len() == 1
    &&& is_pentagon_vertex_layout(p.vertex_buffers@[0])
    &&& p.bind_group_layout_slots == 1
    &&& p.push_constant_ranges == 0
    &&& p.primitive == (PrimitiveState {
        topology: PrimitiveTopology::TriangleList,
        strip_index_format: None,
        front_face: FrontFace::Ccw,
        cull_mode: Some(Face::Back),
        polygon_mode: PolygonMode::Fill,
        clamp_depth: false,
        conservative: false,
    })
    &&& p.color_target == (ColorTargetState {
        format: surface_format,
        blend: Some(BlendState::Replace),
        write_mask: COLOR_WRITE_ALL,
    })
    &&& !p.has_depth_stencil
    &&& p.multisample == (MultisampleState {
        count: 1,
        mask: 0xffff_ffff_ffff_ffff,
        alpha_to_coverage_enabled: false,
    })
}

/// Builds the pipeline plan for a surface of the given preferred format.
pub fn pipeline_plan(surface_format: TextureFormat) -> (r: PipelinePlan)
    ensures
        is_pentagon_pipeline(r, surface_format),
{
    let mut vertex_buffers: Vec<VertexBufferLayout> = Vec::new();
    vertex_buffers.push(vertex_layout());
    PipelinePlan {
        vertex_entry_point: "main",
        fragment_entry_point: "main",
        vertex_buffers,
        bind_group_layout_slots: 1,
        push_constant_ranges: 0,
        primitive: PrimitiveState {
            topology: PrimitiveTopology::TriangleList,
            strip_index_format: None,
            front_face: FrontFace::Ccw,
            cull_mode: Some(Face::Back),
            polygon_mode: PolygonMode::Fill,
            clamp_depth: false,
            conservative: false,
        },
        color_target: ColorTargetState {
            format: surface_format,
            blend: Some(BlendState::Replace),
            write_mask: COLOR_WRITE_ALL,
        },
        has_depth_stencil: false,
        multisample: MultisampleState {
            count: 1,
            mask: 0xffff_ffff_ffff_ffff,
            alpha_to_coverage_enabled: false,
        },
    }
}

} // verus!
