use render_harness::angle::{per_hundred, wrap_angle, TAU_URAD};
use render_harness::device::{DevicePhase, InitError, PresentMode, RenderContext};
use render_harness::instance::{default_instances, GRID_OFFSET, INSTANCE_COUNT, SCALE_ONE};
use render_harness::renderer::{SimpleRender, CLEAR_ALPHA_MICRO, CLEAR_RGB_MICRO};

#[test]
fn wrap_keeps_values_in_range() {
    assert_eq!(wrap_angle(0), 0);
    assert_eq!(wrap_angle(1_234), 1_234);
    assert_eq!(wrap_angle(TAU_URAD - 1), TAU_URAD - 1);
    assert_eq!(wrap_angle(TAU_URAD), 0);
    assert_eq!(wrap_angle(TAU_URAD + 500_000), 500_000);
    assert_eq!(wrap_angle(-300_000), TAU_URAD - 300_000);
    assert_eq!(wrap_angle(-300_000), 5_983_185);
    assert_eq!(wrap_angle(-7_000_000), 2 * TAU_URAD - 7_000_000);
    for x in [-10_000_000i64, -1, 0, 1, 999_999_999_999] {
        let r = wrap_angle(x);
        assert!(0 <= r && r < TAU_URAD);
    }
}

#[test]
fn per_hundred_floors_toward_negative_infinity() {
    assert_eq!(per_hundred(250), 2);
    assert_eq!(per_hundred(0), 0);
    assert_eq!(per_hundred(-100), -1);
    assert_eq!(per_hundred(-50), -1);
    assert_eq!(per_hundred(-101), -2);
    assert_eq!(per_hundred(10_000_000), 100_000);
}

#[test]
fn default_instances_form_grid() {
    let insts = default_instances();
    assert_eq!(insts.len(), INSTANCE_COUNT);
    assert_eq!(
        (insts[0].position_x, insts[0].position_y),
        (-GRID_OFFSET, GRID_OFFSET)
    );
    assert_eq!(
        (insts[1].position_x, insts[1].position_y),
        (GRID_OFFSET, GRID_OFFSET)
    );
    assert_eq!(
        (insts[2].position_x, insts[2].position_y),
        (-GRID_OFFSET, -GRID_OFFSET)
    );
    assert_eq!(
        (insts[3].position_x, insts[3].position_y),
        (GRID_OFFSET, -GRID_OFFSET)
    );
    for inst in [insts[0], insts[1], insts[2], insts[3]] {
        assert_eq!(inst.rotation, 0);
        assert_eq!(inst.scale, SCALE_ONE);
    }
}

#[test]
fn renderer_uploads_defaults_at_construction() {
    let r = SimpleRender::new(7);
    assert_eq!(r.format, 7);
    assert_eq!(r.instances, r.buffer);
    assert_eq!(r.instances, default_instances());
}

#[test]
fn render_reuploads_whole_mirror() {
    let mut r = SimpleRender::new(0);
    r.set_rotation(1, 2_000_000);
    assert_ne!(r.instances, r.buffer);
    let sub = r.render();
    assert_eq!(r.buffer, r.instances);
    assert_eq!(r.buffer[1].rotation, 2_000_000);
    assert_eq!(sub.vertex_count, 3);
    assert_eq!(sub.instance_count, INSTANCE_COUNT as u32);
    assert_eq!(sub.clear_rgb, CLEAR_RGB_MICRO);
    assert_eq!(sub.clear_alpha, CLEAR_ALPHA_MICRO);
}

#[test]
fn render_twice_writes_identical_buffers() {
    let mut r = SimpleRender::new(0);
    r.add_rotation(2, 130_000);
    let _ = r.render();
    let first = r.buffer.clone();
    let _ = r.render();
    assert_eq!(r.buffer, first);
}

#[test]
fn add_rotation_wraps_both_ways() {
    let mut r = SimpleRender::new(0);
    r.add_rotation(0, -300_000);
    assert_eq!(r.instances[0].rotation, TAU_URAD - 300_000);
    r.add_rotation(0, 400_000);
    assert_eq!(r.instances[0].rotation, 100_000);
}

#[test]
fn create_surface_without_adapter_is_fatal() {
    let mut ctx = RenderContext::new();
    assert_eq!(ctx.phase, DevicePhase::Uninitialized);
    let r = ctx.create_surface(None, 400, 400, PresentMode::AutoNoVsync);
    assert_eq!(r.unwrap_err(), InitError::Fatal);
    assert_eq!(ctx.phase, DevicePhase::Uninitialized);
}

#[test]
fn create_surface_without_formats_is_fatal() {
    let mut ctx = RenderContext::new();
    let r = ctx.create_surface(Some(Vec::new()), 400, 400, PresentMode::AutoNoVsync);
    assert_eq!(r.unwrap_err(), InitError::Fatal);
    assert_eq!(ctx.phase, DevicePhase::Uninitialized);
}

#[test]
fn create_surface_picks_first_offered_format() {
    let mut ctx = RenderContext::new();
    let surf = ctx
        .create_surface(Some(vec![7, 9, 11]), 640, 480, PresentMode::AutoNoVsync)
        .unwrap();
    assert_eq!(ctx.phase, DevicePhase::Ready);
    assert_eq!(surf.format, 7);
    assert_eq!(surf.config.format, 7);
    assert_eq!(surf.config.width, 640);
    assert_eq!(surf.config.height, 480);
    assert_eq!(surf.config.present_mode, PresentMode::AutoNoVsync);
    assert_eq!(surf.config.frame_latency, 2);
}

#[test]
fn reconfigure_updates_size_and_mode_but_not_format() {
    let mut ctx = RenderContext::new();
    let mut surf = ctx
        .create_surface(Some(vec![3]), 400, 400, PresentMode::AutoNoVsync)
        .unwrap();
    ctx.reconfigure(&mut surf, 800, 600, PresentMode::Fifo);
    assert_eq!(surf.format, 3);
    assert_eq!(surf.config.format, 3);
    assert_eq!(surf.config.width, 800);
    assert_eq!(surf.config.height, 600);
    assert_eq!(surf.config.present_mode, PresentMode::Fifo);
}
