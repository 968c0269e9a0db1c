//! The window events the render loop reacts to.

use vstd::prelude::*;

verus! {

/// A key, reduced to what the render loop distinguishes: the escape key
/// ends the loop, every other key is ignored.
#[derive(Clone, Copy, Debug, PartialEq, Eq, Structural)]
pub enum Key {
    /// The escape key.
    Escape,
    /// Any other key.
    Other,
}

/// One event delivered by the windowing system.
///
/// Events are handed to [`crate::Graphics::handle_event`] one at a
/// time, in arrival order; the embedding maps the windowing library's
/// own event type onto this taxonomy.
#[derive(Clone, Copy, Debug, PartialEq, Eq, Structural)]
pub enum Event {
    /// The window was resized to the given width and height, in pixels.
    Resized(u32, u32),
    /// The user asked to close the window.
    CloseRequested,
    /// A key was pressed.
    KeyPressed(Key),
    /// The window asks for its contents to be redrawn.
    RedrawRequested,
    /// Any event the render loop does not react to.
    Other,
}

impl Event {
    /// Does this event end the loop?  Both a close request and the
    /// escape key do, and nothing else.
    pub open spec fn is_exit(self) -> bool {
        self == Event::CloseRequested || self == Event::KeyPressed(Key::Escape)
    }
}

} // verus!
