//! The render-loop controller: an event-reactive state machine.

use vstd::prelude::*;

use crate::config::SurfaceConfig;
use crate::config::spec_resized_config;
use crate::config::spec_initial;
use crate::event::Event;
use crate::event::Key;
use crate::pass::Color;
use crate::pass::RenderPass;
use crate::pass::spec_black;
use crate::renderable::Renderable;
use crate::renderable::concat_draws;
use crate::renderable::resize_all_spec;
use crate::spec_clamp_dim;

verus! {

/// The phase the render loop is in.  The loop starts in
/// `Initializing`, runs once started, and `Exiting` is terminal: no
/// state is re-enterable after it.
#[derive(Clone, Copy, Debug, PartialEq, Eq, Structural)]
pub enum LoopState {
    /// Before the loop starts; drawables are registered here.
    Initializing,
    /// The loop is processing events.
    Running,
    /// The loop has ended; every further event is ignored.
    Exiting,
}

/// One outward-visible action the embedding must perform on behalf of
/// the loop, in the order returned.
#[derive(Clone, Copy, Debug, PartialEq, Eq, Structural)]
pub enum Effect {
    /// Apply the current surface configuration to the real surface.
    ConfigureSurface,
    /// Ask the window for another redraw.
    RequestRedraw,
    /// Submit the recorded commands to the queue.
    Submit,
    /// Present the acquired frame.
    Present,
    /// Leave the event loop.
    Exit,
}

/// What one event produced: the effects the embedding must perform,
/// and, for a redraw, the completed recording scope of the frame.
#[derive(Debug)]
pub struct Response {
    /// The actions to perform, in order.
    pub effects: Vec<Effect>,
    /// The frame's recorded pass, if this event caused a redraw.
    pub pass: Option<RenderPass>,
}

/// Why startup could not complete: the surface reported no usable
/// capability to pick from.  Startup failures are fatal and happen
/// before any frame is rendered.
#[derive(Clone, Copy, Debug, PartialEq, Eq, Structural)]
pub enum StartupError {
    /// The surface reported no supported pixel format.
    NoSurfaceFormat,
    /// The surface reported no supported alpha compositing mode.
    NoAlphaMode,
}

/// The loop state after one event.  Only an exit event while running
/// changes it: close requested or the escape key moves the loop to
/// `Exiting`, which no event leaves.
pub open spec fn step_state(s: LoopState, e: Event) -> LoopState {
    if s == LoopState::Running && e.is_exit() {
        LoopState::Exiting
    } else {
        s
    }
}

/// The surface configuration after one event: a resize while running
/// stores the clamped dimensions, everything else keeps it.
pub open spec fn step_config(c: SurfaceConfig, s: LoopState, e: Event) -> SurfaceConfig {
    if s == LoopState::Running {
        match e {
            Event::Resized(w, h) => spec_resized_config(c, w, h),
            _ => c,
        }
    } else {
        c
    }
}

/// The effects one event produces, in order.  Outside `Running` every
/// event is ignored.
pub open spec fn step_effects(s: LoopState, e: Event) -> Seq<Effect> {
    if s == LoopState::Running {
        match e {
            Event::Resized(_, _) => seq![Effect::ConfigureSurface, Effect::RequestRedraw],
            Event::CloseRequested => seq![Effect::Exit],
            Event::KeyPressed(k) => if k == Key::Escape {
                seq![Effect::Exit]
            } else {
                Seq::<Effect>::empty()
            },
            Event::RedrawRequested => seq![Effect::Submit, Effect::Present, Effect::RequestRedraw],
            Event::Other => Seq::<Effect>::empty(),
        }
    } else {
        Seq::<Effect>::empty()
    }
}

/// The loop state after a whole sequence of events, processed one at a
/// time in arrival order.
pub open spec fn run_state(s: LoopState, es: Seq<Event>) -> LoopState
    decreases es.len(),
{
    if es.len() == 0 {
        s
    } else {
        run_state(step_state(s, es[0]), es.skip(1))
    }
}

/// The surface configuration after a whole sequence of events.
pub open spec fn run_config(c: SurfaceConfig, s: LoopState, es: Seq<Event>) -> SurfaceConfig
    decreases es.len(),
{
    if es.len() == 0 {
        c
    } else {
        run_config(step_config(c, s, es[0]), step_state(s, es[0]), es.skip(1))
    }
}

/// Processing a concatenation processes the pieces in turn.
pub proof fn lemma_run_state_app(s: LoopState, es1: Seq<Event>, es2: Seq<Event>)
    ensures
        run_state(s, es1 + es2) == run_state(run_state(s, es1), es2),
    decreases es1.len(),
{
    if es1.len() == 0 {
        assert(es1 + es2 =~= es2);
    } else {
        lemma_run_state_app(step_state(s, es1[0]), es1.skip(1), es2);
        assert((es1 + es2).skip(1) =~= es1.skip(1) + es2);
    }
}

/// Extending the event history by one event steps the final state once.
pub proof fn lemma_run_state_snoc(s: LoopState, es: Seq<Event>, i: int)
    requires
        0 <= i < es.len(),
    ensures
        run_state(s, es.take(i + 1)) == step_state(run_state(s, es.take(i)), es[i]),
{
    let last = seq![es[i]];
    assert(es.take(i + 1) =~= es.take(i) + last);
    lemma_run_state_app(s, es.take(i), last);
    let s1 = run_state(s, es.take(i));
    assert(last.skip(1) =~= Seq::<Event>::empty());
    assert(run_state(step_state(s1, es[i]), last.skip(1)) == step_state(s1, es[i]));
    assert(last[0] == es[i]);
    assert(run_state(s1, last) == step_state(s1, es[i]));
}

/// Same as [`lemma_run_state_app`], for the configuration.
pub proof fn lemma_run_config_app(c: SurfaceConfig, s: LoopState, es1: Seq<Event>, es2: Seq<Event>)
    ensures
        run_config(c, s, es1 + es2) == run_config(
            run_config(c, s, es1),
            run_state(s, es1),
            es2,
        ),
    decreases es1.len(),
{
    if es1.len() == 0 {
        assert(es1 + es2 =~= es2);
    } else {
        lemma_run_config_app(step_config(c, s, es1[0]), step_state(s, es1[0]), es1.skip(1), es2);
        assert((es1 + es2).skip(1) =~= es1.skip(1) + es2);
    }
}

/// Same as [`lemma_run_state_snoc`], for the configuration.
pub proof fn lemma_run_config_snoc(c: SurfaceConfig, s: LoopState, es: Seq<Event>, i: int)
    requires
        0 <= i < es.len(),
    ensures
        run_config(c, s, es.take(i + 1)) == step_config(
            run_config(c, s, es.take(i)),
            run_state(s, es.take(i)),
            es[i],
        ),
{
    let last = seq![es[i]];
    assert(es.take(i + 1) =~= es.take(i) + last);
    lemma_run_config_app(c, s, es.take(i), last);
    let c1 = run_config(c, s, es.take(i));
    let s1 = run_state(s, es.take(i));
    assert(last.skip(1) =~= Seq::<Event>::empty());
    assert(run_config(step_config(c1, s1, es[i]), step_state(s1, es[i]), last.skip(1))
        == step_config(c1, s1, es[i]));
    assert(last[0] == es[i]);
    assert(run_config(c1, s1, last) == step_config(c1, s1, es[i]));
}

/// `Exiting` is terminal: no sequence of further events leaves it.
pub proof fn lemma_exiting_absorbs(es: Seq<Event>)
    ensures
        run_state(LoopState::Exiting, es) == LoopState::Exiting,
    decreases es.len(),
{
    if es.len() > 0 {
        lemma_exiting_absorbs(es.skip(1));
    }
}

/// A started loop never returns to `Initializing`.
pub proof fn lemma_started_stays_started(s: LoopState, es: Seq<Event>)
    requires
        s != LoopState::Initializing,
    ensures
        run_state(s, es) != LoopState::Initializing,
    decreases es.len(),
{
    if es.len() > 0 {
        lemma_started_stays_started(step_state(s, es[0]), es.skip(1));
    }
}

/// Close requested and the escape key both deterministically move the
/// loop from `Running` to `Exiting`, and afterwards no event produces
/// an effect, a redraw or a configuration change.
pub proof fn lemma_exit_event_terminates(e: Event, later: Seq<Event>)
    requires
        e.is_exit(),
    ensures
        step_state(LoopState::Running, e) == LoopState::Exiting,
        run_state(step_state(LoopState::Running, e), later) == LoopState::Exiting,
        forall|e2: Event| step_effects(LoopState::Exiting, e2) == Seq::<Effect>::empty(),
        forall|c: SurfaceConfig, e2: Event| step_config(c, LoopState::Exiting, e2) == c,
{
    lemma_exiting_absorbs(later);
}

/// Once an exit event occurs, every later prefix of the history ends in
/// `Exiting`: no event after a close produces further state
/// transitions, effects or configuration changes.
pub proof fn lemma_no_transitions_after_close(es: Seq<Event>, i: int, j: int)
    requires
        0 <= i < j <= es.len(),
        es[i].is_exit(),
    ensures
        run_state(LoopState::Running, es.take(j)) == LoopState::Exiting,
        j < es.len() ==> step_effects(run_state(LoopState::Running, es.take(j)), es[j])
            == Seq::<Effect>::empty(),
        forall|c: SurfaceConfig| run_config(c, LoopState::Running, es.take(j)) == run_config(
            c,
            LoopState::Running,
            es.take(i + 1),
        ),
{
    let upto = es.take(i + 1);
    let rest = es.take(j).skip(i + 1);
    assert(es.take(j) =~= upto + rest);
    lemma_run_state_snoc(LoopState::Running, es, i);
    lemma_started_stays_started(LoopState::Running, es.take(i));
    let s1 = run_state(LoopState::Running, upto);
    assert(s1 == LoopState::Exiting);
    lemma_run_state_app(LoopState::Running, upto, rest);
    lemma_exiting_absorbs(rest);
    assert forall|c: SurfaceConfig|
        run_config(c, LoopState::Running, es.take(j)) == run_config(
            c,
            LoopState::Running,
            upto,
        ) by {
        lemma_run_config_app(c, LoopState::Running, upto, rest);
        lemma_exiting_config_absorbs(run_config(c, LoopState::Running, upto), rest);
    }
}

/// While the loop is exiting, the configuration never changes.
pub proof fn lemma_exiting_config_absorbs(c: SurfaceConfig, es: Seq<Event>)
    ensures
        run_config(c, LoopState::Exiting, es) == c,
    decreases es.len(),
{
    if es.len() > 0 {
        lemma_exiting_config_absorbs(c, es.skip(1));
    }
}

/// A resize with dimensions already at least 1 is stored exactly, and
/// the clamp never produces a zero axis.
pub proof fn lemma_resize_exact(c: SurfaceConfig, w: u32, h: u32)
    ensures
        w >= 1 ==> spec_resized_config(c, w, h).width == w,
        h >= 1 ==> spec_resized_config(c, w, h).height == h,
        spec_resized_config(c, w, h).width >= 1,
        spec_resized_config(c, w, h).height >= 1,
        spec_resized_config(c, w, h).format == c.format,
        spec_resized_config(c, w, h).present_mode == c.present_mode,
        spec_resized_config(c, w, h).alpha_mode == c.alpha_mode,
        spec_resized_config(c, w, h).desired_maximum_frame_latency
            == c.desired_maximum_frame_latency,
{
}

/// The render-loop controller.
///
/// It owns the surface configuration and the drawable registry, and
/// turns one window event at a time into state transitions, resize
/// propagation, one recorded frame per redraw, and orderly exit.  The
/// embedding performs the returned [`Effect`]s against the real
/// device, queue, surface and window.
#[derive(Debug)]
pub struct Graphics<D: Renderable> {
    /// The presentable surface's current configuration.
    pub config: SurfaceConfig,
    /// The phase the loop is in.
    pub state: LoopState,
    /// The registered drawables; registration order is draw order.
    pub renderables: Vec<D>,
}

impl<D: Renderable> Graphics<D> {
    /// The controller's invariant: the surface configuration never has
    /// a zero axis.
    pub open spec fn wf(self) -> bool {
        self.config.wf()
    }

    /// Set up a controller for a surface of the requested size, picking
    /// the first reported format and alpha mode as canonical.
    ///
    /// Fails, before any frame is rendered, when the surface reports no
    /// format or no alpha mode at all.
    pub fn new(width: u32, height: u32, formats: &Vec<u32>, alpha_modes: &Vec<u32>) -> (r: Result<
        Graphics<D>,
        StartupError,
    >)
        ensures
            formats@.len() == 0 ==> r == Result::<Graphics<D>, StartupError>::Err(
                StartupError::NoSurfaceFormat,
            ),
            formats@.len() > 0 && alpha_modes@.len() == 0 ==> r == Result::<
                Graphics<D>,
                StartupError,
            >::Err(StartupError::NoAlphaMode),
            formats@.len() > 0 && alpha_modes@.len() > 0 ==> (r matches Ok(g)
                && g.config == spec_initial(width, height, formats@[0], alpha_modes@[0])
                && g.state == LoopState::Initializing
                && g.renderables@ == Seq::<D>::empty()
                && g.wf()),
    {
        if formats.len() == 0 {
            return Err(StartupError::NoSurfaceFormat);
        }
        if alpha_modes.len() == 0 {
            return Err(StartupError::NoAlphaMode);
        }
        let config = SurfaceConfig::initial(width, height, formats[0], alpha_modes[0]);
        Ok(Graphics { config, state: LoopState::Initializing, renderables: Vec::new() })
    }

    /// Register a drawable.  Registration happens before the loop
    /// starts, and the order of registration is the order the drawables
    /// will draw in.
    pub fn register(&mut self, drawable: D)
        requires
            old(self).state == LoopState::Initializing,
        ensures
            final(self).renderables@ == old(self).renderables@.push(drawable),
            final(self).config == old(self).config,
            final(self).state == old(self).state,
    {
        self.renderables.push(drawable);
    }

    /// Start the loop: events are now processed rather than ignored.
    /// One-shot; drawables can no longer be registered afterwards.
    pub fn start(&mut self)
        requires
            old(self).state == LoopState::Initializing,
        ensures
            final(self).state == LoopState::Running,
            final(self).config == old(self).config,
            final(self).renderables@ == old(self).renderables@,
    {
        self.state = LoopState::Running;
    }

    /// Resize every registered drawable to the same dimensions, in
    /// registration order.
    fn resize_all(&mut self, width: u32, height: u32)
        requires
            width >= 1,
            height >= 1,
        ensures
            final(self).renderables@ == resize_all_spec(old(self).renderables@, width, height),
            final(self).config == old(self).config,
            final(self).state == old(self).state,
    {
        let ghost orig = self.renderables@;
        let n = self.renderables.len();
        let mut i: usize = 0;
        while i < n
            invariant
                i <= n,
                n == self.renderables@.len(),
                n == orig.len(),
                width >= 1,
                height >= 1,
                forall|j: int| i <= j < n ==> self.renderables@[j] == orig[j],
                forall|j: int|
                    0 <= j < i ==> self.renderables@[j] == orig[j].resize_spec(width, height),
                self.config == old(self).config,
                self.state == old(self).state,
            decreases n - i,
        {
            let d = &mut self.renderables[i];
            d.resize(width, height);
            i += 1;
        }
        proof {
            assert(self.renderables@ =~= resize_all_spec(orig, width, height));
        }
    }

    /// Let every registered drawable record into the frame's pass, in
    /// registration order.
    fn render_all(&mut self, pass: &mut RenderPass)
        ensures
            final(self).renderables@.len() == old(self).renderables@.len(),
            final(self).config == old(self).config,
            final(self).state == old(self).state,
            final(pass).clear_color == old(pass).clear_color,
            final(pass).commands@ == old(pass).commands@ + concat_draws(old(self).renderables@),
    {
        let ghost orig = self.renderables@;
        let ghost start = pass.commands@;
        let n = self.renderables.len();
        let mut i: usize = 0;
        while i < n
            invariant
                i <= n,
                n == self.renderables@.len(),
                n == orig.len(),
                forall|j: int| i <= j < n ==> self.renderables@[j] == orig[j],
                pass.commands@ == start + concat_draws(orig.take(i as int)),
                pass.clear_color == old(pass).clear_color,
                self.config == old(self).config,
                self.state == old(self).state,
            decreases n - i,
        {
            proof {
                assert(orig.take(i + 1).drop_last() =~= orig.take(i as int));
                assert(orig.take(i + 1).last() == orig[i as int]);
            }
            let d = &mut self.renderables[i];
            d.render(pass);
            i += 1;
        }
        proof {
            assert(orig.take(n as int) =~= orig);
        }
    }

    /// React to one event, delivered by the embedding in arrival order.
    ///
    /// While running: a resize clamps and stores the new dimensions,
    /// notifies every drawable of them and asks for a redraw; a close
    /// request or the escape key ends the loop; a redraw request
    /// records one frame — a single pass with the fixed black clear
    /// color, into which every drawable draws exactly once in
    /// registration order — to be submitted and presented, and
    /// immediately asks for the next redraw.  Every other event, and
    /// every event outside `Running`, is ignored.
    pub fn handle_event(&mut self, event: Event) -> (out: Response)
        requires
            old(self).wf(),
        ensures
            final(self).wf(),
            final(self).state == step_state(old(self).state, event),
            final(self).config == step_config(old(self).config, old(self).state, event),
            out.effects@ == step_effects(old(self).state, event),
            old(self).state != LoopState::Running ==> final(self).renderables@ == old(
                self,
            ).renderables@ && out.pass is None,
            old(self).state == LoopState::Running ==> (match event {
                Event::Resized(w, h) => {
                    &&& final(self).renderables@ == resize_all_spec(
                        old(self).renderables@,
                        spec_clamp_dim(w),
                        spec_clamp_dim(h),
                    )
                    &&& out.pass is None
                },
                Event::RedrawRequested => {
                    &&& final(self).renderables@.len() == old(self).renderables@.len()
                    &&& out.pass matches Some(p)
                    &&& p.clear_color == spec_black()
                    &&& p.commands@ == concat_draws(old(self).renderables@)
                },
                _ => final(self).renderables@ == old(self).renderables@ && out.pass is None,
            }),
    {
        if self.state != LoopState::Running {
            return Response { effects: Vec::new(), pass: None };
        }
        match event {
            Event::Resized(w, h) => {
                self.config.apply_resize(w, h);
                let cw = crate::clamp_dim(w);
                let ch = crate::clamp_dim(h);
                self.resize_all(cw, ch);
                let mut effects: Vec<Effect> = Vec::new();
                effects.push(Effect::ConfigureSurface);
                effects.push(Effect::RequestRedraw);
                proof {
                    assert(effects@ =~= step_effects(old(self).state, event));
                }
                Response { effects, pass: None }
            },
            Event::CloseRequested => {
                self.state = LoopState::Exiting;
                let mut effects: Vec<Effect> = Vec::new();
                effects.push(Effect::Exit);
                proof {
                    assert(effects@ =~= step_effects(old(self).state, event));
                }
                Response { effects, pass: None }
            },
            Event::KeyPressed(k) => {
                if k == Key::Escape {
                    self.state = LoopState::Exiting;
                    let mut effects: Vec<Effect> = Vec::new();
                    effects.push(Effect::Exit);
                    proof {
                        assert(effects@ =~= step_effects(old(self).state, event));
                    }
                    Response { effects, pass: None }
                } else {
                    Response { effects: Vec::new(), pass: None }
                }
            },
            Event::RedrawRequested => {
                let mut pass = RenderPass::open(Color::black());
                self.render_all(&mut pass);
                proof {
                    assert(pass.commands@ =~= concat_draws(old(self).renderables@));
                }
                let mut effects: Vec<Effect> = Vec::new();
                effects.push(Effect::Submit);
                effects.push(Effect::Present);
                effects.push(Effect::RequestRedraw);
                proof {
                    assert(effects@ =~= step_effects(old(self).state, event));
                }
                Response { effects, pass: Some(pass) }
            },
            Event::Other => Response { effects: Vec::new(), pass: None },
        }
    }

    /// Start the loop and process a whole sequence of events, one at a
    /// time in arrival order, returning each event's response in order.
    pub fn run(&mut self, events: &Vec<Event>) -> (log: Vec<Response>)
        requires
            old(self).state == LoopState::Initializing,
            old(self).wf(),
        ensures
            final(self).wf(),
            final(self).state == run_state(LoopState::Running, events@),
            final(self).config == run_config(old(self).config, LoopState::Running, events@),
            log@.len() == events@.len(),
            forall|i: int|
                0 <= i < events@.len() ==> #[trigger] log@[i].effects@ == step_effects(
                    run_state(LoopState::Running, events@.take(i)),
                    events@[i],
                ),
    {
        self.state = LoopState::Running;
        let ghost c0 = self.config;
        let mut log: Vec<Response> = Vec::new();
        let n = events.len();
        let mut i: usize = 0;
        while i < n
            invariant
                i <= n,
                n == events@.len(),
                self.wf(),
                self.state == run_state(LoopState::Running, events@.take(i as int)),
                self.config == run_config(c0, LoopState::Running, events@.take(i as int)),
                c0 == old(self).config,
                log@.len() == i,
                forall|j: int|
                    0 <= j < i ==> #[trigger] log@[j].effects@ == step_effects(
                        run_state(LoopState::Running, events@.take(j)),
                        events@[j],
                    ),
            decreases n - i,
        {
            proof {
                lemma_run_state_snoc(LoopState::Running, events@, i as int);
                lemma_run_config_snoc(c0, LoopState::Running, events@, i as int);
            }
            let out = self.handle_event(events[i]);
            log.push(out);
            i += 1;
        }
        proof {
            assert(events@.take(n as int) =~= events@);
        }
        log
    }
}

} // verus!
