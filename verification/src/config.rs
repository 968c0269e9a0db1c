//! The presentable surface's configuration.

use vstd::prelude::*;

verus! {

/// How acquired frames are paced when they are handed back for display.
///
/// The render loop itself has no frame-rate governor: pacing is
/// delegated entirely to the present mode, and the harness always
/// starts in [`PresentMode::Fifo`] (vertical-sync-equivalent blocking).
#[derive(Clone, Copy, Debug, PartialEq, Eq, Structural)]
pub enum PresentMode {
    /// Block on presentation until the next vertical blank.
    Fifo,
    /// Present immediately, never blocking.
    Immediate,
    /// Present the most recent frame at the next vertical blank.
    Mailbox,
}

/// The configuration of the presentable surface: pixel format, size,
/// presentation pacing, alpha compositing and frame-latency bound.
///
/// The pixel format and the alpha compositing mode are carried as the
/// indices the embedding reported them under when it enumerated the
/// surface's capabilities; the harness only ever selects and stores
/// them, it never interprets them.
///
/// Invariant ([`SurfaceConfig::wf`]): `width >= 1 && height >= 1`.
/// Zero-sized configurations are clamped before being applied.
#[derive(Clone, Copy, Debug, PartialEq, Eq, Structural)]
pub struct SurfaceConfig {
    /// The pixel format, as reported by the surface's capabilities.
    pub format: u32,
    /// Width of the presentable image, in pixels; always at least 1.
    pub width: u32,
    /// Height of the presentable image, in pixels; always at least 1.
    pub height: u32,
    /// How frames are paced at presentation.
    pub present_mode: PresentMode,
    /// The alpha compositing mode, as reported by the capabilities.
    pub alpha_mode: u32,
    /// Upper bound on frames buffered ahead of presentation.
    pub desired_maximum_frame_latency: u32,
}

impl SurfaceConfig {
    /// Well-formedness: a surface is never configured with a zero axis.
    pub open spec fn wf(self) -> bool {
        self.width >= 1 && self.height >= 1
    }

    /// The configuration applied at startup: the requested size clamped
    /// away from zero, vertical-sync pacing and a two-frame latency
    /// bound.
    pub fn initial(width: u32, height: u32, format: u32, alpha_mode: u32) -> (c: SurfaceConfig)
        ensures
            c == spec_initial(width, height, format, alpha_mode),
            c.wf(),
    {
        SurfaceConfig {
            format,
            width: crate::clamp_dim(width),
            height: crate::clamp_dim(height),
            present_mode: PresentMode::Fifo,
            alpha_mode,
            desired_maximum_frame_latency: 2,
        }
    }

    /// Accept a resize: both axes are clamped away from zero and stored;
    /// every other field is kept.
    pub fn apply_resize(&mut self, width: u32, height: u32)
        ensures
            *final(self) == spec_resized_config(*old(self), width, height),
            final(self).wf(),
    {
        self.width = crate::clamp_dim(width);
        self.height = crate::clamp_dim(height);
    }
}

/// The startup configuration as a value: clamped size, vertical-sync
/// pacing, two buffered frames.
pub open spec fn spec_initial(width: u32, height: u32, format: u32, alpha_mode: u32) -> SurfaceConfig {
    SurfaceConfig {
        format,
        width: crate::spec_clamp_dim(width),
        height: crate::spec_clamp_dim(height),
        present_mode: PresentMode::Fifo,
        alpha_mode,
        desired_maximum_frame_latency: 2,
    }
}

/// A configuration after a resize to `(width, height)`: the clamped
/// dimensions replace the old ones, everything else is kept.
pub open spec fn spec_resized_config(c: SurfaceConfig, width: u32, height: u32) -> SurfaceConfig {
    SurfaceConfig {
        width: crate::spec_clamp_dim(width),
        height: crate::spec_clamp_dim(height),
        ..c
    }
}

} // verus!
