//! The per-frame plan: one render pass over the acquired swapchain image,
//! cleared to a fixed color, with one indexed draw whose index buffer is
//! chosen by the first lever.
//!
//! Clear-color channels are IEEE 754 double-precision values; the crate
//! states and stores their bit patterns.

use vstd::prelude::*;
use crate::levers::{LEVER1, Levers};

verus! {

/// Bit pattern of the clear color's red channel, 0.1.
pub const CLEAR_R_BITS: u64 = 0x3fb9_9999_9999_999a;
/// Bit pattern of the clear color's green channel, 0.2.
pub const CLEAR_G_BITS: u64 = 0x3fc9_9999_9999_999a;
/// Bit pattern of the clear color's blue channel, 0.3.
pub const CLEAR_B_BITS: u64 = 0x3fd3_3333_3333_3333;
/// Bit pattern of the clear color's alpha channel, 1.0.
pub const CLEAR_A_BITS: u64 = 0x3ff0_0000_0000_0000;

/// A color, each channel the bit pattern of an IEEE 754 double-precision
/// value.
#[derive(Clone, Copy, Debug, PartialEq, Eq, Structural)]
pub struct Color {
    pub r_bits: u64,
    pub g_bits: u64,
    pub b_bits: u64,
    pub a_bits: u64,
}

/// The fixed clear color, (0.1, 0.2, 0.3, 1.0).
pub open spec fn clear_color() -> Color {
    Color {
        r_bits: CLEAR_R_BITS,
        g_bits: CLEAR_G_BITS,
        b_bits: CLEAR_B_BITS,
        a_bits: CLEAR_A_BITS,
    }
}

/// What a render pass does with an attachment's prior contents.
#[derive(Clone, Copy, Debug, PartialEq, Eq, Structural)]
pub enum LoadOp {
    Clear(Color),
    Load,
}

/// Load and store semantics of one attachment.
#[derive(Clone, Copy, Debug, PartialEq, Eq, Structural)]
pub struct Operations {
    pub load: LoadOp,
    pub store: bool,
}

/// The single color attachment of the frame's render pass: the acquired
/// swapchain image's view, no resolve target, and its load/store ops.
#[derive(Clone, Copy, Debug, PartialEq, Eq, Structural)]
pub struct ColorAttachmentPlan {
    pub has_resolve_target: bool,
    pub ops: Operations,
}

/// Which of the two index buffers a draw uses.
#[derive(Clone, Copy, Debug, PartialEq, Eq, Structural)]
pub enum BufferChoice {
    /// The full pentagon fan.
    Primary,
    /// The two detached triangles.
    Secondary,
}

/// The format of the bound index buffer.
#[derive(Clone, Copy, Debug, PartialEq, Eq, Structural)]
pub enum IndexFormat {
    Uint16,
    Uint32,
}

/// The one indexed draw a frame records: bind group 0, vertex-buffer slot 0,
/// the chosen index buffer, and indices `0..index_count` of one instance.
#[derive(Clone, Copy, Debug, PartialEq, Eq, Structural)]
pub struct DrawPlan {
    pub bind_group_slot: u32,
    pub vertex_buffer_slot: u32,
    pub index_buffer: BufferChoice,
    pub index_format: IndexFormat,
    pub index_count: u32,
    pub base_vertex: i32,
    pub instance_count: u32,
}

/// Everything one frame records and submits: a single pass with a single
/// color attachment and a single draw, in one command buffer.
#[derive(Clone, Copy, Debug, PartialEq, Eq, Structural)]
pub struct FramePlan {
    pub attachment: ColorAttachmentPlan,
    pub draw: DrawPlan,
}

/// Why acquiring the swapchain's current image failed.
#[derive(Clone, Copy, Debug, PartialEq, Eq, Structural)]
pub enum SwapchainError {
    /// Acquisition timed out; the next frame retries.
    Timeout,
    /// The swapchain no longer matches the surface; the next frame retries.
    Outdated,
    /// The swapchain is lost and must be recreated.
    Lost,
    /// The driver is out of memory; the application must exit.
    OutOfMemory,
    /// Some other acquisition failure; the next frame retries.
    Other,
}

/// The index buffer the draw binds while the given levers are latched, and
/// the number of indices it submits: the detached triangles while `LEVER1`
/// is set, else the full fan.
pub open spec fn chosen_buffer(levers: Levers, primary_count: u32, secondary_count: u32) -> (
    BufferChoice,
    u32,
) {
    if levers.spec_contains(LEVER1) {
        (BufferChoice::Secondary, secondary_count)
    } else {
        (BufferChoice::Primary, primary_count)
    }
}

/// The plan a frame records for the given lever state and buffer sizes.
pub open spec fn spec_frame_plan(levers: Levers, primary_count: u32, secondary_count: u32)
    -> FramePlan {
    FramePlan {
        attachment: ColorAttachmentPlan {
            has_resolve_target: false,
            ops: Operations { load: LoadOp::Clear(clear_color()), store: true },
        },
        draw: DrawPlan {
            bind_group_slot: 0,
            vertex_buffer_slot: 0,
            index_buffer: chosen_buffer(levers, primary_count, secondary_count).0,
            index_format: IndexFormat::Uint16,
            index_count: chosen_buffer(levers, primary_count, secondary_count).1,
            base_vertex: 0,
            instance_count: 1,
        },
    }
}

/// Builds the frame plan: a clear to the fixed color with store enabled,
/// and one 16-bit indexed draw of the lever-chosen buffer.
pub fn frame_plan(levers: &Levers, primary_count: u32, secondary_count: u32) -> (r: FramePlan)
    ensures
        r == spec_frame_plan(*levers, primary_count, secondary_count),
{
    let secondary = levers.contains(LEVER1);
    FramePlan {
        attachment: ColorAttachmentPlan {
            has_resolve_target: false,
            ops: Operations {
                load: LoadOp::Clear(Color {
                    r_bits: CLEAR_R_BITS,
                    g_bits: CLEAR_G_BITS,
                    b_bits: CLEAR_B_BITS,
                    a_bits: CLEAR_A_BITS,
                }),
                store: true,
            },
        },
        draw: DrawPlan {
            bind_group_slot: 0,
            vertex_buffer_slot: 0,
            index_buffer: if secondary {
                BufferChoice::Secondary
            } else {
                BufferChoice::Primary
            },
            index_format: IndexFormat::Uint16,
            index_count: if secondary {
                secondary_count
            } else {
                primary_count
            },
            base_vertex: 0,
            instance_count: 1,
        },
    }
}

/// Buffer selection: while `LEVER1` is latched a frame draws exactly the
/// secondary buffer's count from the secondary buffer, otherwise exactly
/// the primary buffer's count from the primary buffer.
pub proof fn lemma_buffer_selection(levers: Levers, primary_count: u32, secondary_count: u32)
    ensures
        levers.spec_contains(LEVER1) ==> spec_frame_plan(levers, primary_count, secondary_count)
            .draw.index_buffer == BufferChoice::Secondary && spec_frame_plan(
            levers,
            primary_count,
            secondary_count,
        ).draw.index_count == secondary_count,
        !levers.spec_contains(LEVER1) ==> spec_frame_plan(levers, primary_count, secondary_count)
            .draw.index_buffer == BufferChoice::Primary && spec_frame_plan(
            levers,
            primary_count,
            secondary_count,
        ).draw.index_count == primary_count,
{
}

/// Clear color: every frame's single color attachment clears to exactly
/// (0.1, 0.2, 0.3, 1.0), stores the pass's result, and resolves nowhere.
pub proof fn lemma_clear_color(levers: Levers, primary_count: u32, secondary_count: u32)
    ensures
        spec_frame_plan(levers, primary_count, secondary_count).attachment == (ColorAttachmentPlan {
            has_resolve_target: false,
            ops: Operations { load: LoadOp::Clear(clear_color()), store: true },
        }),
        clear_color().r_bits == 0x3fb9_9999_9999_999a,
        clear_color().g_bits == 0x3fc9_9999_9999_999a,
        clear_color().b_bits == 0x3fd3_3333_3333_3333,
        clear_color().a_bits == 0x3ff0_0000_0000_0000,
{
}

} // verus!
