//! The renderer's CPU-side state: window size, swapchain descriptor, input
//! state, and the two index buffers with their draw counts. The GPU handles
//! this state describes (device, queue, buffers, pipeline) live with the
//! caller; every decision about them is made here.

use vstd::prelude::*;
use crate::geometry::{IndexBuffer, detached_indices, pentagon_indices};
use crate::input::{InputState, WindowEvent, input_step};
use crate::render::{FramePlan, SwapchainError, spec_frame_plan};
use crate::swapchain::{SwapchainDescriptor, TextureFormat, initial_descriptor, resized};

verus! {

/// The stored primary index data: the full fan of nine indices, padded with
/// one zero index to a 4-byte-aligned byte length.
pub open spec fn primary_padded_indices() -> Seq<u16> {
    seq![0u16, 1u16, 4u16, 1u16, 2u16, 4u16, 2u16, 3u16, 4u16, 0u16]
}

/// The stored secondary index data: six indices, already 4-byte aligned.
pub open spec fn secondary_padded_indices() -> Seq<u16> {
    seq![0u16, 1u16, 4u16, 2u16, 3u16, 4u16]
}

/// The renderer's state, as far as it is data: everything the per-frame
/// and per-event decisions read or write.
#[derive(Clone, Debug)]
pub struct RenderState {
    /// The window's current physical size.
    pub size_width: u32,
    pub size_height: u32,
    /// The descriptor the current swapchain was created from.
    pub sc_desc: SwapchainDescriptor,
    /// Cursor position and levers.
    pub input: InputState,
    /// The full pentagon fan, drawn while `LEVER1` is clear.
    pub primary: IndexBuffer,
    /// The detached triangles, drawn while `LEVER1` is set.
    pub secondary: IndexBuffer,
}

impl RenderState {
    /// The state's invariant: both index buffers hold exactly the pentagon
    /// data, aligned, with the fan's draw count 9 and the detached
    /// triangles' draw count 6; and the descriptor mirrors the stored size.
    pub open spec fn well_formed(self) -> bool {
        &&& self.primary.well_formed()
        &&& self.primary.data@ == primary_padded_indices()
        &&& self.primary.logical_count == 9
        &&& self.secondary.well_formed()
        &&& self.secondary.data@ == secondary_padded_indices()
        &&& self.secondary.logical_count == 6
        &&& self.sc_desc.width == self.size_width
        &&& self.sc_desc.height == self.size_height
    }

    /// The startup state: the initial swapchain descriptor for the adapter's
    /// preferred format and the window's physical size, a zeroed input
    /// state, and the two index buffers.
    pub fn new(format: TextureFormat, width: u32, height: u32) -> (r: RenderState)
        ensures
            r.well_formed(),
            r.sc_desc == initial_descriptor(format, width, height),
            r.size_width == width,
            r.size_height == height,
            r.input.mouse_x_bits == 0,
            r.input.mouse_y_bits == 0,
            r.input.levers.bits == 0,
    {
        let primary_data = pentagon_indices();
        let primary = IndexBuffer::from_indices(primary_data);
        let secondary_data = detached_indices();
        let secondary = IndexBuffer::from_indices(secondary_data);
        proof {
            assert(primary.data@ =~= primary_padded_indices()) by {
                assert forall|i: int| 0 <= i < 9 implies primary.data@[i]
                    == primary_padded_indices()[i] by {
                    assert(primary.data@.subrange(0, 9)[i] == primary.data@[i]);
                }
            }
            assert(secondary.data@ =~= secondary_padded_indices()) by {
                assert forall|i: int| 0 <= i < 6 implies secondary.data@[i]
                    == secondary_padded_indices()[i] by {
                    assert(secondary.data@.subrange(0, 6)[i] == secondary.data@[i]);
                }
            }
        }
        RenderState {
            size_width: width,
            size_height: height,
            sc_desc: SwapchainDescriptor::initial(format, width, height),
            input: InputState::new(),
            primary,
            secondary,
        }
    }

    /// Records a new physical size and rewrites the swapchain descriptor's
    /// dimensions; the caller then recreates the swapchain from it.
    pub fn resize(&mut self, width: u32, height: u32)
        ensures
            final(self).size_width == width,
            final(self).size_height == height,
            final(self).sc_desc == resized(old(self).sc_desc, width, height),
            final(self).input == old(self).input,
            final(self).primary == old(self).primary,
            final(self).secondary == old(self).secondary,
            old(self).well_formed() ==> final(self).well_formed(),
    {
        self.size_width = width;
        self.size_height = height;
        self.sc_desc.resize(width, height);
    }

    /// Offers a window event to the input state; returns whether it was
    /// consumed.
    pub fn input(&mut self, event: &WindowEvent) -> (handled: bool)
        ensures
            final(self).input == input_step(old(self).input, *event).0,
            handled == input_step(old(self).input, *event).1,
            final(self).size_width == old(self).size_width,
            final(self).size_height == old(self).size_height,
            final(self).sc_desc == old(self).sc_desc,
            final(self).primary == old(self).primary,
            final(self).secondary == old(self).secondary,
            old(self).well_formed() ==> final(self).well_formed(),
    {
        self.input.input(event)
    }

    /// The per-frame update step; this renderer has none.
    pub fn update(&mut self)
        ensures
            *final(self) == *old(self),
    {
    }

    /// Decides one frame from the outcome of acquiring the swapchain image.
    /// An acquisition error is handed back unchanged for the driver to
    /// classify; a success yields the frame plan for the current levers.
    pub fn render(&self, acquired: Result<(), SwapchainError>) -> (r: Result<
        FramePlan,
        SwapchainError,
    >)
        ensures
            acquired matches Err(e) ==> r == Err::<FramePlan, SwapchainError>(e),
            acquired is Ok ==> r == Ok::<FramePlan, SwapchainError>(
                spec_frame_plan(
                    self.input.levers,
                    self.primary.logical_count,
                    self.secondary.logical_count,
                ),
            ),
    {
        match acquired {
            Err(e) => Err(e),
            Ok(_) => Ok(
                crate::render::frame_plan(
                    &self.input.levers,
                    self.primary.logical_count,
                    self.secondary.logical_count,
                ),
            ),
        }
    }
}

} // verus!
