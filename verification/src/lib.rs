//! A minimal real-time rendering harness, modelled for verification.
//!
//! The crate owns the render-loop coordination logic of a windowed GPU
//! application: an event-driven state machine that reacts to resize,
//! redraw and close events, a presentable-surface configuration whose
//! dimensions are always at least one pixel, a registry of drawables
//! that contribute commands to each frame in registration order, and
//! the geometry value types scene authors build their meshes from.
//!
//! The GPU device and the windowing system themselves are external
//! collaborators: an embedding binary maps their events onto
//! [`event::Event`] values, feeds them to `Graphics::handle_event`,
//! and interprets the returned effects against the real device, queue
//! and surface.

use vstd::prelude::*;

pub mod config;
pub mod event;
pub mod graphics;
pub mod object;
pub mod pass;
pub mod renderable;

pub use config::PresentMode;
pub use config::SurfaceConfig;
pub use event::Event;
pub use event::Key;
pub use graphics::Effect;
pub use graphics::Graphics;
pub use graphics::LoopState;
pub use graphics::Response;
pub use graphics::StartupError;
pub use object::Object;
pub use object::Vertex;
pub use pass::Color;
pub use pass::RenderPass;
pub use renderable::ProbeDrawable;
pub use renderable::Renderable;

verus! {

/// Clamp one surface dimension so it is never zero.
///
/// Zero-sized surface configurations are rejected by clamping the
/// offending axis up to 1, the documented clamp value of this crate.
pub fn clamp_dim(x: u32) -> (r: u32)
    ensures
        r == spec_clamp_dim(x),
        r >= 1,
{
    if x == 0 {
        1
    } else {
        x
    }
}

/// What [`clamp_dim`] returns: the dimension itself unless it is zero,
/// in which case 1.
pub open spec fn spec_clamp_dim(x: u32) -> u32 {
    if x == 0 {
        1u32
    } else {
        x
    }
}

/// The device features requested at startup: every optional feature the
/// adapter actually offers, plus everything mandatory, as bit sets.
pub fn select_features(optional: u64, available: u64, required: u64) -> (r: u64)
    ensures
        r == ((optional & available) | required),
{
    (optional & available) | required
}

} // verus!
