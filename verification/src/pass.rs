//! The command-recording scope of one frame.

use vstd::prelude::*;

verus! {

/// A color, with each channel in `0..=255`.
#[derive(Clone, Copy, Debug, PartialEq, Eq, Structural)]
pub struct Color {
    /// Red channel.
    pub r: u8,
    /// Green channel.
    pub g: u8,
    /// Blue channel.
    pub b: u8,
    /// Alpha channel.
    pub a: u8,
}

impl Color {
    /// Opaque black, the fixed clear color of every frame.
    pub fn black() -> (c: Color)
        ensures
            c == spec_black(),
    {
        Color { r: 0, g: 0, b: 0, a: 255 }
    }
}

/// Opaque black as a value.
pub open spec fn spec_black() -> Color {
    Color { r: 0, g: 0, b: 0, a: 255 }
}

/// One frame's render pass: the recording scope drawables record into.
///
/// The pass is opened by the render loop with a fixed clear color,
/// handed to every registered drawable in registration order, and
/// closed and submitted by the loop; drawables only ever append to it.
/// A recorded command is carried as an opaque identifier chosen by the
/// drawable that recorded it.
#[derive(Debug)]
pub struct RenderPass {
    /// The color the pass clears its target to before any draw runs.
    pub clear_color: Color,
    /// The draw commands recorded so far, oldest first.
    pub commands: Vec<u64>,
}

impl RenderPass {
    /// Open a pass that clears to `clear_color` and holds no commands.
    pub fn open(clear_color: Color) -> (p: RenderPass)
        ensures
            p.clear_color == clear_color,
            p.commands@ == Seq::<u64>::empty(),
    {
        RenderPass { clear_color, commands: Vec::new() }
    }

    /// Record one draw command at the end of the pass.
    pub fn record(&mut self, command: u64)
        ensures
            final(self).clear_color == old(self).clear_color,
            final(self).commands@ == old(self).commands@.push(command),
    {
        self.commands.push(command);
    }
}

} // verus!
