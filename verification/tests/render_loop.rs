use rl_graphics::Color;
use rl_graphics::Effect;
use rl_graphics::Event;
use rl_graphics::Graphics;
use rl_graphics::Key;
use rl_graphics::LoopState;
use rl_graphics::PresentMode;
use rl_graphics::ProbeDrawable;
use rl_graphics::StartupError;
use rl_graphics::SurfaceConfig;
use rl_graphics::clamp_dim;
use rl_graphics::select_features;

fn probe(command: u64) -> ProbeDrawable {
    ProbeDrawable { command, width: 1, height: 1 }
}

fn started(width: u32, height: u32) -> Graphics<ProbeDrawable> {
    Graphics::new(width, height, &vec![7], &vec![3]).unwrap()
}

#[test]
fn startup_picks_first_capabilities_and_clamps() {
    let g: Graphics<ProbeDrawable> = Graphics::new(0, 480, &vec![7, 8], &vec![3, 4]).unwrap();
    assert_eq!(
        g.config,
        SurfaceConfig {
            format: 7,
            width: 1,
            height: 480,
            present_mode: PresentMode::Fifo,
            alpha_mode: 3,
            desired_maximum_frame_latency: 2,
        }
    );
    assert_eq!(g.state, LoopState::Initializing);
    assert!(g.renderables.is_empty());
}

#[test]
fn startup_fails_without_formats() {
    let r: Result<Graphics<ProbeDrawable>, StartupError> = Graphics::new(640, 480, &vec![], &vec![3]);
    assert_eq!(r.unwrap_err(), StartupError::NoSurfaceFormat);
}

#[test]
fn startup_fails_without_alpha_modes() {
    let r: Result<Graphics<ProbeDrawable>, StartupError> = Graphics::new(640, 480, &vec![7], &vec![]);
    assert_eq!(r.unwrap_err(), StartupError::NoAlphaMode);
}

#[test]
fn clamp_dim_rejects_zero_only() {
    assert_eq!(clamp_dim(0), 1);
    assert_eq!(clamp_dim(1), 1);
    assert_eq!(clamp_dim(800), 800);
}

#[test]
fn select_features_takes_offered_optional_plus_required() {
    assert_eq!(select_features(0b1010, 0b0110, 0b0001), 0b0011);
    assert_eq!(select_features(0, 0b1111, 0b0100), 0b0100);
}

#[test]
fn resize_updates_config_and_every_drawable() {
    let mut g = started(640, 480);
    g.register(probe(10));
    g.register(probe(20));
    let log = g.run(&vec![Event::Resized(800, 600)]);
    assert_eq!(g.config.width, 800);
    assert_eq!(g.config.height, 600);
    assert_eq!(g.renderables[0].width, 800);
    assert_eq!(g.renderables[0].height, 600);
    assert_eq!(g.renderables[1].width, 800);
    assert_eq!(g.renderables[1].height, 600);
    assert_eq!(log[0].effects, vec![Effect::ConfigureSurface, Effect::RequestRedraw]);
    assert!(log[0].pass.is_none());
    assert_eq!(g.state, LoopState::Running);
}

#[test]
fn zero_resize_is_clamped() {
    let mut g = started(640, 480);
    g.register(probe(10));
    g.run(&vec![Event::Resized(0, 0)]);
    assert_eq!(g.config.width, 1);
    assert_eq!(g.config.height, 1);
    assert_eq!(g.renderables[0].width, 1);
    assert_eq!(g.renderables[0].height, 1);

    let mut g2 = started(640, 480);
    g2.run(&vec![Event::Resized(0, 500)]);
    assert_eq!(g2.config.width, 1);
    assert_eq!(g2.config.height, 500);
}

#[test]
fn repeated_resize_is_idempotent() {
    let mut once = started(640, 480);
    once.register(probe(10));
    once.run(&vec![Event::Resized(800, 600)]);

    let mut twice = started(640, 480);
    twice.register(probe(10));
    twice.run(&vec![Event::Resized(800, 600), Event::Resized(800, 600)]);

    assert_eq!(once.config, twice.config);
    assert_eq!(once.renderables[0], twice.renderables[0]);
}

#[test]
fn redraw_renders_each_drawable_once_in_registration_order() {
    let mut g = started(640, 480);
    g.register(probe(10));
    g.register(probe(20));
    g.register(probe(30));
    let log = g.run(&vec![Event::RedrawRequested]);
    let pass = log[0].pass.as_ref().unwrap();
    assert_eq!(pass.commands, vec![10, 20, 30]);
    assert_eq!(pass.clear_color, Color { r: 0, g: 0, b: 0, a: 255 });
    assert_eq!(log[0].effects, vec![Effect::Submit, Effect::Present, Effect::RequestRedraw]);
}

#[test]
fn redraw_with_empty_registry_clears_submits_and_presents() {
    let mut g = started(640, 480);
    let log = g.run(&vec![Event::RedrawRequested]);
    let pass = log[0].pass.as_ref().unwrap();
    assert!(pass.commands.is_empty());
    assert_eq!(pass.clear_color, Color { r: 0, g: 0, b: 0, a: 255 });
    assert_eq!(log[0].effects, vec![Effect::Submit, Effect::Present, Effect::RequestRedraw]);
}

#[test]
fn resize_then_redraw_reports_new_size_and_renders_once() {
    let mut g = started(640, 480);
    g.register(probe(42));
    let log = g.run(&vec![Event::Resized(800, 600), Event::RedrawRequested]);
    assert_eq!(g.config.width, 800);
    assert_eq!(g.config.height, 600);
    assert_eq!(g.renderables[0].width, 800);
    assert_eq!(g.renderables[0].height, 600);
    let pass = log[1].pass.as_ref().unwrap();
    assert_eq!(pass.commands, vec![42]);
}

#[test]
fn close_request_exits_and_silences_everything_after() {
    let mut g = started(640, 480);
    g.register(probe(10));
    let log = g.run(&vec![
        Event::CloseRequested,
        Event::Resized(100, 100),
        Event::RedrawRequested,
        Event::KeyPressed(Key::Other),
    ]);
    assert_eq!(g.state, LoopState::Exiting);
    assert_eq!(log[0].effects, vec![Effect::Exit]);
    for out in &log[1..] {
        assert!(out.effects.is_empty());
        assert!(out.pass.is_none());
    }
    assert_eq!(g.config.width, 640);
    assert_eq!(g.config.height, 480);
    assert_eq!(g.renderables[0].width, 1);
}

#[test]
fn escape_key_exits_like_a_close_request() {
    let mut g = started(640, 480);
    let log = g.run(&vec![Event::KeyPressed(Key::Escape), Event::RedrawRequested]);
    assert_eq!(g.state, LoopState::Exiting);
    assert_eq!(log[0].effects, vec![Effect::Exit]);
    assert!(log[1].effects.is_empty());
    assert!(log[1].pass.is_none());
}

#[test]
fn unrecognized_events_are_ignored() {
    let mut g = started(640, 480);
    let log = g.run(&vec![Event::Other, Event::KeyPressed(Key::Other)]);
    assert_eq!(g.state, LoopState::Running);
    assert!(log[0].effects.is_empty());
    assert!(log[1].effects.is_empty());
    assert_eq!(g.config.width, 640);
}

#[test]
fn events_before_the_loop_starts_are_ignored() {
    let mut g = started(640, 480);
    let out = g.handle_event(Event::RedrawRequested);
    assert_eq!(g.state, LoopState::Initializing);
    assert!(out.effects.is_empty());
    assert!(out.pass.is_none());
}
