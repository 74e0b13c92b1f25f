//! Verified core of a real-time full-screen shader viewer.
//!
//! The library models the GPU rendering and frame-presentation pipeline:
//! device and memory-type selection, render targets, swapchain negotiation,
//! shader-pipeline hot-swap, per-frame scheduling, and the CPU-staged blit
//! path. Platform plumbing (window system, kernel mode-setting, raw input)
//! lives outside the library and talks to it through plain values.

use vstd::prelude::*;

pub mod device;
pub mod display;
pub mod modes;
pub mod pipeline;
pub mod platform;
pub mod scheduler;
pub mod shader;
pub mod shader_compiler;
pub mod surface;
pub mod swapchain;
pub mod texture;
pub mod uniform;

verus! {

/// Unrecoverable construction failures: rendering cannot proceed without a
/// device, a queue, or memory of the required kind.
#[derive(Clone, Copy, Debug, PartialEq, Eq, Structural)]
pub enum Fatal {
    NoDeviceFound,
    NoQueueFound,
    NoSuitableMemoryType,
    InvalidDimensions,
    AllocationTooLarge,
}

} // verus!
