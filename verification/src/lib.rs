//! Verified core of a small GPU pentagon renderer.
//!
//! The crate models everything the renderer decides on the CPU side: the
//! geometry and its byte layout, the latched input state, the swapchain
//! descriptor lifecycle, the fixed render-pass and pipeline configuration,
//! and the event-loop dispatch with its error classification. The window
//! system and the GPU driver are callers of this crate; they hand in plain
//! events and carry out the plans the crate returns.

pub mod driver;
pub mod geometry;
pub mod input;
pub mod layout;
pub mod levers;
pub mod pipeline;
pub mod render;
pub mod state;
pub mod swapchain;
pub mod texture;
