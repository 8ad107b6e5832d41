//! The swapchain descriptor and its lifecycle: built once from the window's
//! physical size, and rebuilt with new dimensions on every resize.

use vstd::prelude::*;

verus! {

/// Texture usage flags, with bitwise semantics.
#[derive(Clone, Copy, Debug, PartialEq, Eq, Structural)]
pub struct TextureUsage {
    pub bits: u32,
}

/// Usage bit: the texture may be the destination of a copy or write.
pub const USAGE_COPY_DST: u32 = 0b00010;
/// Usage bit: the texture may be sampled from a shader.
pub const USAGE_SAMPLED: u32 = 0b00100;
/// Usage bit: the texture may be a render-pass color attachment.
pub const USAGE_RENDER_ATTACHMENT: u32 = 0b10000;

/// A texture format. The surface's preferred format is negotiated by the
/// adapter; formats the model does not name are carried as `Other` with the
/// driver's own code, never inspected.
#[derive(Clone, Copy, Debug, PartialEq, Eq, Structural)]
pub enum TextureFormat {
    Rgba8UnormSrgb,
    Bgra8UnormSrgb,
    Other(u32),
}

/// Presentation mode of the swapchain.
#[derive(Clone, Copy, Debug, PartialEq, Eq, Structural)]
pub enum PresentMode {
    Immediate,
    Mailbox,
    Fifo,
}

/// The swapchain descriptor: usage, negotiated format, the window's physical
/// size, and the presentation mode.
#[derive(Clone, Copy, Debug, PartialEq, Eq, Structural)]
pub struct SwapchainDescriptor {
    pub usage: TextureUsage,
    pub format: TextureFormat,
    pub width: u32,
    pub height: u32,
    pub present_mode: PresentMode,
}

/// The descriptor after a resize: only the dimensions change.
pub open spec fn resized(d: SwapchainDescriptor, width: u32, height: u32) -> SwapchainDescriptor {
    SwapchainDescriptor { width, height, ..d }
}

/// The initial descriptor for a surface of the given preferred format and
/// physical size: render-attachment usage and a VSync-capped presentation
/// mode.
pub open spec fn initial_descriptor(format: TextureFormat, width: u32, height: u32)
    -> SwapchainDescriptor {
    SwapchainDescriptor {
        usage: TextureUsage { bits: USAGE_RENDER_ATTACHMENT },
        format,
        width,
        height,
        present_mode: PresentMode::Fifo,
    }
}

impl SwapchainDescriptor {
    /// The initial descriptor: render-attachment usage, the adapter's
    /// preferred format, the window's current physical size, and a
    /// VSync-capped presentation mode.
    pub fn initial(format: TextureFormat, width: u32, height: u32) -> (r: SwapchainDescriptor)
        ensures
            r == initial_descriptor(format, width, height),
    {
        SwapchainDescriptor {
            usage: TextureUsage { bits: USAGE_RENDER_ATTACHMENT },
            format,
            width,
            height,
            present_mode: PresentMode::Fifo,
        }
    }

    /// Rewrites the dimensions in place; usage, format and presentation
    /// mode are kept. The caller then recreates the swapchain from the
    /// updated descriptor.
    pub fn resize(&mut self, width: u32, height: u32)
        ensures
            *final(self) == resized(*old(self), width, height),
    {
        self.width = width;
        self.height = height;
    }
}

/// Resizing is idempotent: a second resize to the same dimensions leaves
/// the descriptor exactly as the first left it, in every field.
pub proof fn lemma_resize_idempotent(d: SwapchainDescriptor, width: u32, height: u32)
    ensures
        resized(resized(d, width, height), width, height) == resized(d, width, height),
{
}

} // verus!
