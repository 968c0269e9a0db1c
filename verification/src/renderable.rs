//! The capability contract every scene participant implements.

use vstd::prelude::*;

use crate::pass::RenderPass;

verus! {

/// A scene participant: something that records draw commands into the
/// frame's render pass and keeps dimension-dependent state up to date.
///
/// The render loop treats implementors polymorphically: it never knows
/// what a drawable draws, only that the drawable appends its commands
/// to the pass it is handed and that resizing is idempotent on the
/// drawable's GPU-visible uniform state.
pub trait Renderable: Sized {
    /// The drawable's GPU-visible uniform state, abstractly: whatever
    /// dimension-dependent data it keeps uploaded (for example a
    /// projection matrix), as a sequence of machine words.
    spec fn uniform(&self) -> Seq<u64>;

    /// The drawable's state after recomputing its dimension-dependent
    /// data for a surface of `width` by `height` pixels.
    spec fn resize_spec(&self, width: u32, height: u32) -> Self;

    /// The draw commands this drawable records when it renders, as the
    /// opaque identifiers it appends to the pass.
    spec fn draw_commands(&self) -> Seq<u64>;

    /// Resizing twice with identical dimensions leaves the GPU-visible
    /// uniform state identical to resizing once.  Every implementor
    /// proves this.
    proof fn resize_idempotent(&self, width: u32, height: u32)
        requires
            width >= 1,
            height >= 1,
        ensures
            self.resize_spec(width, height).resize_spec(width, height).uniform()
                == self.resize_spec(width, height).uniform(),
    ;

    /// Recompute and upload dimension-dependent state for the new
    /// presentation dimensions.  The dimensions are guaranteed to be at
    /// least 1 on each axis.
    fn resize(&mut self, width: u32, height: u32)
        requires
            width >= 1,
            height >= 1,
        ensures
            *final(self) == old(self).resize_spec(width, height),
    ;

    /// Record this drawable's draw commands into the currently open
    /// pass.  The drawable only appends: everything recorded before it
    /// stays, and the pass's clear color is untouched.  The drawable
    /// may update its own per-frame state while recording.
    fn render(&mut self, pass: &mut RenderPass)
        ensures
            final(pass).clear_color == old(pass).clear_color,
            final(pass).commands@ == old(pass).commands@ + old(self).draw_commands(),
    ;
}

/// The draw commands a whole registry records in one frame: each
/// drawable's commands, concatenated in registration order.
pub open spec fn concat_draws<D: Renderable>(rs: Seq<D>) -> Seq<u64>
    decreases rs.len(),
{
    if rs.len() == 0 {
        Seq::<u64>::empty()
    } else {
        concat_draws(rs.drop_last()) + rs.last().draw_commands()
    }
}

/// Each registered drawable contributes to the frame exactly once, at
/// its registration position: the frame's command sequence splits as
/// everything recorded by earlier drawables, then drawable `i`'s own
/// commands, then everything recorded by later drawables.
pub proof fn lemma_draws_in_order<D: Renderable>(rs: Seq<D>, i: int)
    requires
        0 <= i < rs.len(),
    ensures
        concat_draws(rs) == concat_draws(rs.take(i)) + rs[i].draw_commands() + concat_draws(
            rs.skip(i + 1),
        ),
    decreases rs.len(),
{
    if i == rs.len() - 1 {
        assert(rs.drop_last() =~= rs.take(i));
        assert(rs.skip(i + 1) =~= Seq::<D>::empty());
        assert(concat_draws(rs.skip(i + 1)) == Seq::<u64>::empty());
        assert(concat_draws(rs) == concat_draws(rs.take(i)) + rs[i].draw_commands()
            + concat_draws(rs.skip(i + 1)));
    } else {
        lemma_draws_in_order(rs.drop_last(), i);
        assert(rs.drop_last().take(i) =~= rs.take(i));
        assert(rs.drop_last()[i] == rs[i]);
        assert(rs.drop_last().skip(i + 1) =~= rs.skip(i + 1).drop_last());
        assert(rs.skip(i + 1).last() == rs.last());
        assert(rs.skip(i + 1).len() > 0);
        assert(concat_draws(rs.skip(i + 1)) == concat_draws(rs.skip(i + 1).drop_last())
            + rs.skip(i + 1).last().draw_commands());
    }
}

/// The uniform states of a whole registry, in registration order.
pub open spec fn uniforms<D: Renderable>(rs: Seq<D>) -> Seq<Seq<u64>> {
    rs.map_values(|d: D| d.uniform())
}

/// The registry after every drawable has been resized to the same
/// dimensions.
pub open spec fn resize_all_spec<D: Renderable>(rs: Seq<D>, width: u32, height: u32) -> Seq<D> {
    rs.map_values(|d: D| d.resize_spec(width, height))
}

/// Resizing a whole registry twice with identical dimensions leaves
/// every drawable's GPU-visible uniform state identical to resizing it
/// once.
pub proof fn lemma_registry_resize_idempotent<D: Renderable>(rs: Seq<D>, width: u32, height: u32)
    requires
        width >= 1,
        height >= 1,
    ensures
        uniforms(resize_all_spec(resize_all_spec(rs, width, height), width, height)) == uniforms(
            resize_all_spec(rs, width, height),
        ),
{
    let once = resize_all_spec(rs, width, height);
    let twice = resize_all_spec(once, width, height);
    assert forall|i: int| 0 <= i < rs.len() implies twice[i].uniform() == once[i].uniform() by {
        rs[i].resize_idempotent(width, height);
    }
    assert(uniforms(twice) =~= uniforms(once));
}

/// A resize whose dimensions are already at least 1 on both axes is
/// delivered to every registered drawable exactly as it arrived: the
/// clamp changes nothing, and drawable `i` is resized with precisely
/// the event's dimensions.
pub proof fn lemma_resize_notifies_exact<D: Renderable>(rs: Seq<D>, width: u32, height: u32)
    requires
        width >= 1,
        height >= 1,
    ensures
        resize_all_spec(rs, crate::spec_clamp_dim(width), crate::spec_clamp_dim(height))
            == resize_all_spec(rs, width, height),
        forall|i: int|
            0 <= i < rs.len() ==> resize_all_spec(rs, width, height)[i] == rs[i].resize_spec(
                width,
                height,
            ),
{
}

/// The simplest drawable: it records one opaque command per frame and
/// keeps the dimensions it last saw as its uniform state.
///
/// An embedding can register one probe per real drawable to mirror its
/// scene in the controller, and tests observe the loop through it.
#[derive(Clone, Copy, Debug, PartialEq, Eq, Structural)]
pub struct ProbeDrawable {
    /// The opaque command this drawable records each frame.
    pub command: u64,
    /// The width it last resized to.
    pub width: u32,
    /// The height it last resized to.
    pub height: u32,
}

impl Renderable for ProbeDrawable {
    open spec fn uniform(&self) -> Seq<u64> {
        seq![self.width as u64, self.height as u64]
    }

    open spec fn resize_spec(&self, width: u32, height: u32) -> Self {
        ProbeDrawable { command: self.command, width, height }
    }

    open spec fn draw_commands(&self) -> Seq<u64> {
        seq![self.command]
    }

    proof fn resize_idempotent(&self, width: u32, height: u32) {
    }

    fn resize(&mut self, width: u32, height: u32) {
        self.width = width;
        self.height = height;
    }

    fn render(&mut self, pass: &mut RenderPass) {
        pass.record(self.command);
        proof {
            assert(pass.commands@ =~= old(pass).commands@ + old(self).draw_commands());
        }
    }
}

} // verus!
