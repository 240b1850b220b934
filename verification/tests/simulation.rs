use render_harness::angle::TAU_URAD;
use render_harness::device::PresentMode;
use render_harness::sim::{
    Action, Key, Phase, SimEvent, SimulationLoop, RATE_NEG_URAD, RATE_POS_URAD,
};

fn running_loop() -> SimulationLoop {
    let mut sim = SimulationLoop::new();
    let r = sim.on_resumed(Some(vec![7u32]), 400, 400, PresentMode::AutoNoVsync);
    assert!(r.is_ok());
    assert_eq!(sim.phase, Phase::Running);
    sim
}

fn rotation(sim: &SimulationLoop, i: usize) -> i64 {
    sim.renderer.as_ref().unwrap().instances[i].rotation
}

fn buffer_rotation(sim: &SimulationLoop, i: usize) -> i64 {
    sim.renderer.as_ref().unwrap().buffer[i].rotation
}

#[test]
fn starts_uninitialized_with_idle_rates() {
    let sim = SimulationLoop::new();
    assert_eq!(sim.phase, Phase::Uninitialized);
    assert_eq!(sim.rates, vec![0, 0, 0, 0]);
    assert!(sim.renderer.is_none());
    assert!(sim.surface.is_none());
}

#[test]
fn resume_without_adapter_fails_and_changes_nothing() {
    let mut sim = SimulationLoop::new();
    assert!(sim
        .on_resumed(None, 400, 400, PresentMode::AutoNoVsync)
        .is_err());
    assert_eq!(sim.phase, Phase::Uninitialized);
    assert!(sim.renderer.is_none());
    assert!(sim
        .on_resumed(Some(Vec::new()), 400, 400, PresentMode::AutoNoVsync)
        .is_err());
    assert_eq!(sim.phase, Phase::Uninitialized);
}

#[test]
fn resume_builds_renderer_and_surface() {
    let sim = running_loop();
    let renderer = sim.renderer.as_ref().unwrap();
    assert_eq!(renderer.format, 7);
    assert_eq!(renderer.instances.len(), 4);
    let surface = sim.surface.as_ref().unwrap();
    assert_eq!(surface.format, 7);
    assert_eq!(surface.config.width, 400);
}

#[test]
fn window_left_press_integrates_and_wraps() {
    // A window-level left-arrow press sets instance 1's rate to -1 rad/s;
    // half a second starting from 0.2 rad lands on 2*pi - 0.3.
    let mut sim = running_loop();
    // reach 0.2 rad through the public api: +1 rad/s for 0.2 s
    sim.handle_event(&SimEvent::WindowKey { key: Key::ArrowRight, pressed: true });
    sim.handle_event(&SimEvent::IdleTick { dt_us: 200_000 });
    sim.handle_event(&SimEvent::WindowKey { key: Key::ArrowRight, pressed: false });
    assert_eq!(rotation(&sim, 1), 200_000);

    sim.handle_event(&SimEvent::WindowKey { key: Key::ArrowLeft, pressed: true });
    assert_eq!(sim.rates[1], RATE_NEG_URAD);
    sim.handle_event(&SimEvent::IdleTick { dt_us: 500_000 });
    assert_eq!(rotation(&sim, 1), TAU_URAD - 300_000);
    assert_eq!(rotation(&sim, 1), 5_983_185);
    let as_radians = rotation(&sim, 1) as f64 / 1e6;
    assert!((as_radians - (2.0 * std::f64::consts::PI - 0.3)).abs() < 1e-5);
}

#[test]
fn cursor_sets_rotation_absolutely() {
    // Cursor at x = 250 px sets instance 3's rotation to 2.5 rad directly,
    // independent of elapsed time.
    let mut sim = running_loop();
    sim.handle_event(&SimEvent::CursorMoved { x: 250_000_000, y: 123_456 });
    assert_eq!(rotation(&sim, 3), 2_500_000);
    sim.handle_event(&SimEvent::IdleTick { dt_us: 3_000_000 });
    assert_eq!(rotation(&sim, 3), 2_500_000);
}

#[test]
fn raw_motion_accumulates_x_and_ignores_y() {
    // Deltas (10, -5) then (3, 2) raise instance 2's rotation by 0.13.
    let mut sim = running_loop();
    sim.handle_event(&SimEvent::RawMotion { dx: 10_000_000, dy: -5_000_000 });
    assert_eq!(rotation(&sim, 2), 100_000);
    sim.handle_event(&SimEvent::RawMotion { dx: 3_000_000, dy: 2_000_000 });
    assert_eq!(rotation(&sim, 2), 130_000);
    sim.handle_event(&SimEvent::RawMotion { dx: 0, dy: 9_000_000 });
    assert_eq!(rotation(&sim, 2), 130_000);
}

#[test]
fn close_while_redraw_scheduled_stops_redraws() {
    // A close request arriving while a redraw is already scheduled moves the
    // loop to Exiting; the scheduled redraw is ignored and no further one is
    // requested.
    let mut sim = running_loop();
    let a = sim.handle_event(&SimEvent::RedrawRequested);
    assert!(matches!(a, Action::SubmitFrame(_)));
    let a = sim.handle_event(&SimEvent::CloseRequested);
    assert_eq!(a, Action::Exit);
    assert_eq!(sim.phase, Phase::Exiting);
    let a = sim.handle_event(&SimEvent::RedrawRequested);
    assert_eq!(a, Action::Ignore);
}

#[test]
fn escape_exits_at_either_granularity() {
    let mut sim = running_loop();
    let a = sim.handle_event(&SimEvent::WindowKey { key: Key::Escape, pressed: true });
    assert_eq!(a, Action::Exit);
    assert_eq!(sim.phase, Phase::Exiting);

    let mut sim = running_loop();
    let a = sim.handle_event(&SimEvent::RawKey { key: Key::Escape, pressed: true });
    assert_eq!(a, Action::Exit);
    assert_eq!(sim.phase, Phase::Exiting);
}

#[test]
fn key_axes_never_influence_each_other() {
    let mut sim = running_loop();
    sim.handle_event(&SimEvent::RawKey { key: Key::ArrowLeft, pressed: true });
    assert_eq!(sim.rates[0], RATE_NEG_URAD);
    assert_eq!(sim.rates[1], 0);
    sim.handle_event(&SimEvent::WindowKey { key: Key::ArrowRight, pressed: true });
    assert_eq!(sim.rates[0], RATE_NEG_URAD);
    assert_eq!(sim.rates[1], RATE_POS_URAD);
    sim.handle_event(&SimEvent::IdleTick { dt_us: 100_000 });
    assert_eq!(rotation(&sim, 0), TAU_URAD - 100_000);
    assert_eq!(rotation(&sim, 1), 100_000);
    assert_eq!(rotation(&sim, 2), 0);
    assert_eq!(rotation(&sim, 3), 0);
    sim.handle_event(&SimEvent::RawKey { key: Key::ArrowLeft, pressed: false });
    assert_eq!(sim.rates[0], 0);
    assert_eq!(sim.rates[1], RATE_POS_URAD);
}

#[test]
fn release_clears_only_its_own_rate() {
    let mut sim = running_loop();
    sim.handle_event(&SimEvent::WindowKey { key: Key::ArrowLeft, pressed: true });
    sim.handle_event(&SimEvent::RawKey { key: Key::ArrowRight, pressed: true });
    sim.handle_event(&SimEvent::WindowKey { key: Key::ArrowLeft, pressed: false });
    assert_eq!(sim.rates[0], RATE_POS_URAD);
    assert_eq!(sim.rates[1], 0);
}

#[test]
fn other_keys_do_nothing() {
    let mut sim = running_loop();
    let before = sim.rates.clone();
    let a = sim.handle_event(&SimEvent::WindowKey { key: Key::Other, pressed: true });
    assert_eq!(a, Action::Ignore);
    assert_eq!(sim.rates, before);
    assert_eq!(sim.phase, Phase::Running);
}

#[test]
fn events_apply_before_integration_and_render() {
    // A batch of input events, then exactly one idle tick, then one redraw:
    // the uploaded buffer reflects every event exactly once, integrated once.
    let mut sim = running_loop();
    sim.handle_event(&SimEvent::WindowKey { key: Key::ArrowRight, pressed: true });
    sim.handle_event(&SimEvent::RawMotion { dx: 10_000_000, dy: -4_000_000 });
    sim.handle_event(&SimEvent::CursorMoved { x: 250_000_000, y: 0 });
    // nothing rendered yet: buffer still holds the defaults
    assert_eq!(buffer_rotation(&sim, 1), 0);
    assert_eq!(buffer_rotation(&sim, 2), 0);
    assert_eq!(buffer_rotation(&sim, 3), 0);
    sim.handle_event(&SimEvent::IdleTick { dt_us: 100_000 });
    let a = sim.handle_event(&SimEvent::RedrawRequested);
    assert!(matches!(a, Action::SubmitFrame(_)));
    assert_eq!(buffer_rotation(&sim, 0), 0);
    assert_eq!(buffer_rotation(&sim, 1), 100_000);
    assert_eq!(buffer_rotation(&sim, 2), 100_000);
    assert_eq!(buffer_rotation(&sim, 3), 2_500_000);
}

#[test]
fn idle_tick_with_no_elapsed_time_changes_nothing() {
    let mut sim = running_loop();
    sim.handle_event(&SimEvent::WindowKey { key: Key::ArrowLeft, pressed: true });
    sim.handle_event(&SimEvent::IdleTick { dt_us: 0 });
    assert_eq!(rotation(&sim, 1), 0);
}

#[test]
fn integration_wraps_repeatedly_into_range() {
    let mut sim = running_loop();
    sim.handle_event(&SimEvent::WindowKey { key: Key::ArrowLeft, pressed: true });
    // 7 seconds at -1 rad/s from zero: more than one full negative turn
    sim.handle_event(&SimEvent::IdleTick { dt_us: 7_000_000 });
    assert_eq!(rotation(&sim, 1), 2 * TAU_URAD - 7_000_000);
    let r = rotation(&sim, 1);
    assert!(0 <= r && r < TAU_URAD);
}

#[test]
fn exiting_ignores_all_events() {
    let mut sim = running_loop();
    sim.handle_event(&SimEvent::CloseRequested);
    let before_rates = sim.rates.clone();
    assert_eq!(
        sim.handle_event(&SimEvent::WindowKey { key: Key::ArrowLeft, pressed: true }),
        Action::Ignore
    );
    assert_eq!(
        sim.handle_event(&SimEvent::RawMotion { dx: 5_000_000, dy: 0 }),
        Action::Ignore
    );
    assert_eq!(
        sim.handle_event(&SimEvent::IdleTick { dt_us: 1_000_000 }),
        Action::Ignore
    );
    assert_eq!(sim.rates, before_rates);
    assert_eq!(rotation(&sim, 2), 0);
    assert_eq!(sim.phase, Phase::Exiting);
}
