//! The swapchain-surface configuration owned by the GPU context, and the
//! outcomes of acquiring a frame from it.
//!
//! The device, queue and surface themselves are opaque GPU handles owned
//! by the caller; the core owns the configuration values applied to the
//! surface, and the rule that a resize to a zero dimension is a no-op.

use vstd::prelude::*;

verus! {

/// Surface pixel format.  The core carries the format through to the
/// pipeline's colour target; it never inspects it.
#[derive(Clone, Copy, Debug, PartialEq, Eq, Structural)]
pub enum SurfaceFormat {
    Bgra8UnormSrgb,
    Rgba8UnormSrgb,
    Other,
}

/// Presentation mode: this core always presents vsynced (no tearing
/// mode), which is also what provides per-frame back-pressure.
#[derive(Clone, Copy, Debug, PartialEq, Eq, Structural)]
pub enum PresentMode {
    Vsync,
}

/// Surface usage: the core only ever renders to the surface.
#[derive(Clone, Copy, Debug, PartialEq, Eq, Structural)]
pub enum SurfaceUsage {
    RenderAttachment,
}

/// The configuration applied to the surface.
#[derive(Clone, Copy, Debug, PartialEq, Eq, Structural)]
pub struct SurfaceConfig {
    pub usage: SurfaceUsage,
    pub format: SurfaceFormat,
    pub width: u32,
    pub height: u32,
    pub present_mode: PresentMode,
}

impl SurfaceConfig {
    /// The configuration applied at startup: render-target usage, the
    /// surface's preferred format, the given size, vsynced presentation.
    pub fn configure(format: SurfaceFormat, width: u32, height: u32) -> (c: SurfaceConfig)
        ensures
            c == (SurfaceConfig {
                usage: SurfaceUsage::RenderAttachment,
                format,
                width,
                height,
                present_mode: PresentMode::Vsync,
            }),
    {
        SurfaceConfig {
            usage: SurfaceUsage::RenderAttachment,
            format,
            width,
            height,
            present_mode: PresentMode::Vsync,
        }
    }

    /// Applies a resize: updates the stored size, unless either dimension
    /// is zero (a minimised window), in which case nothing changes.
    pub fn resize(&mut self, new_width: u32, new_height: u32)
        ensures
            *final(self) == (if new_width > 0 && new_height > 0 {
                SurfaceConfig { width: new_width, height: new_height, ..*old(self) }
            } else {
                *old(self)
            }),
    {
        if new_width > 0 && new_height > 0 {
            self.width = new_width;
            self.height = new_height;
        }
    }
}

/// The outcome of asking the surface for the next frame's texture.
#[derive(Clone, Copy, Debug, PartialEq, Eq, Structural)]
pub enum AcquireOutcome {
    /// A texture was acquired.
    Success,
    /// The surface was lost: reconfigure and retry.
    Lost,
    /// The surface no longer matches the window: reconfigure and retry.
    Outdated,
    /// No texture became available in time: retry next frame.
    Timeout,
    /// The host is out of memory: fatal.
    OutOfMemory,
}

} // verus!
