use canvas_demos::ray_tracer::cpu::Rates;
use canvas_demos::ray_tracer::gpu::{
    pick_preferred, present_current_surface, surface_scale, surface_side, GpuState, PassPlan,
    PresentAction,
};
use canvas_demos::ray_tracer::uniforms::{
    axis_has_direction, uniform_bytes, Camera, Uniforms, CAMERA_LENS_RADIUS,
};
use canvas_demos::ray_tracer::units::V3;

fn d(v: f64) -> u64 {
    v.to_bits()
}

fn b(v: f32) -> u32 {
    v.to_bits()
}

fn camera() -> Camera {
    Camera {
        eye: V3::new(1, 2, 3),
        forward: V3::new(4, 5, 6),
        right: V3::new(7, 8, 9),
        up: V3::new(10, 11, 12),
        tan_half_fov_x: 13,
        tan_half_fov_y: 14,
        focus_dist: 15,
    }
}

fn block(w: u32, h: u32, seeds: [u32; 4]) -> Uniforms {
    GpuState::write_uniforms(&PassPlan { source: 0, target: 1, seeds }, w, h, &camera())
}

#[test]
fn new_hardware_renderer() {
    let g = GpuState::new(640, 480, d(3.0));
    assert_eq!((g.read_idx, g.write_idx), (0, 1));
    assert_eq!(g.seed_salt, 1131583712);
    assert_eq!(g.adaptive_passes, 4);
    assert_eq!(g.cam_pitch, b(0.15));
    assert_eq!(g.stats.window_start, d(3.0));
    assert_eq!((g.iteration, g.frame), (0, 0));
}

#[test]
fn passes_take_turns() {
    let mut g = GpuState::new(640, 480, d(0.0));
    let first = g.trace_one_pass();
    assert_eq!((first.source, first.target), (0, 1));
    assert_eq!(first.seeds, [1131583712, 0, 0, 0]);
    let second = g.trace_one_pass();
    assert_eq!((second.source, second.target), (1, 0));
    assert_eq!(second.seeds, [1131583712, 1, 1, 0]);
    let third = g.trace_one_pass();
    assert_eq!((third.source, third.target), (0, 1));
    assert_eq!(g.read_idx, 1);
    assert_eq!(g.iteration, 3);
}

#[test]
fn passes_are_counted() {
    let mut g = GpuState::new(640, 480, d(0.0));
    g.update_stats(d(0.5));
    g.update_stats(d(0.25));
    assert_eq!(g.stats.last_pass_ms, d(0.25));
    assert_eq!(g.stats.window_passes, 2);
    assert_eq!(g.stats.rays_per_pass_est, 3_072_000);
    assert_eq!(g.stats.total_samples, 614_400);
    assert_eq!(g.stats.total_rays_est, 6_144_000);
    assert_eq!(g.stats.window_samples, 614_400);
    assert_eq!(g.stats.window_rays_est, 6_144_000);
    let rates = Rates { passes: d(2.0), samples: d(3.0), rays: d(4.0) };
    assert!(!g.roll_stats(d(1.0), d(999.5), rates));
    assert_eq!(g.stats.window_passes, 2);
    assert!(g.roll_stats(d(1000.0), d(1000.0), rates));
    assert_eq!(g.stats.window_passes, 0);
    assert_eq!(g.stats.window_samples, 0);
    assert_eq!(g.stats.window_rays_est, 0);
    assert_eq!(g.stats.passes_per_sec, d(2.0));
    assert_eq!(g.stats.samples_per_sec, d(3.0));
    assert_eq!(g.stats.rays_per_sec_est, d(4.0));
    assert_eq!(g.stats.window_start, d(1000.0));
    assert_eq!(g.stats.total_rays_est, 6_144_000);
}

#[test]
fn pace_follows_the_frames() {
    let mut g = GpuState::new(640, 480, d(0.0));
    // The first frame has no predecessor.
    assert_eq!(g.draw_frame(d(100.0), d(100.0)), 4);
    assert_eq!(g.draw_frame(d(120.0), d(20.0)), 3);
    assert_eq!(g.draw_frame(d(138.0), d(18.0)), 3);
    assert_eq!(g.draw_frame(d(152.0), d(14.0)), 3);
    assert_eq!(g.draw_frame(d(165.0), d(13.0)), 4);
    for _ in 0..40 {
        g.draw_frame(d(200.0), d(5.0));
    }
    assert_eq!(g.adaptive_passes, 24);
    for _ in 0..40 {
        g.draw_frame(d(200.0), d(50.0));
    }
    assert_eq!(g.adaptive_passes, 1);
    assert_eq!(g.last_frame_start, d(200.0));
    g.finish_frame(7, d(2.5));
    assert_eq!(g.stats.last_frame_passes, 7);
    assert_eq!(g.stats.last_frame_ms, d(2.5));
}

#[test]
fn one_pass_while_dragging() {
    let mut g = GpuState::new(640, 480, d(0.0));
    g.press(1, 2);
    assert_eq!(g.draw_frame(d(10.0), d(0.0)), 1);
    assert_eq!(g.adaptive_passes, 4);
    g.release();
    assert_eq!(g.draw_frame(d(20.0), d(16.0)), 4);
}

#[test]
fn turning_the_camera_clears_the_picture() {
    let mut g = GpuState::new(640, 480, d(0.0));
    g.trace_one_pass();
    g.update_stats(d(0.5));
    g.drag(3, 4, b(1.0), b(0.5), d(9.0));
    assert_eq!(g.iteration, 1);
    assert_eq!(g.drag_distance(3, 4), None);
    g.press(1, 2);
    assert_eq!(g.drag_distance(3, 5), Some((2, 3)));
    g.drag(3, 5, b(1.0), b(5.0), d(9.0));
    assert_eq!(g.iteration, 0);
    assert_eq!((g.read_idx, g.write_idx), (0, 1));
    assert_eq!(g.seed_salt, 1131583712u32.wrapping_add(0x9E37_79B9));
    assert_eq!(g.cam_yaw, b(1.0));
    assert_eq!(g.cam_pitch, b(1.2));
    assert_eq!(g.last_mouse, (3, 5));
    assert_eq!(g.stats.total_samples, 0);
    assert_eq!(g.stats.window_start, d(9.0));
}

#[test]
fn window_changes_size() {
    let mut g = GpuState::new(640, 480, d(0.0));
    g.trace_one_pass();
    assert!(!g.resize_if_needed(None, d(1.0)));
    assert!(!g.resize_if_needed(Some((640, 480)), d(1.0)));
    assert_eq!(g.iteration, 1);
    assert!(g.resize_if_needed(Some((640, 481)), d(1.0)));
    assert_eq!((g.width, g.height), (640, 481));
    assert_eq!(g.iteration, 0);
    assert_eq!(g.stats.window_start, d(1.0));
}

#[test]
fn size_of_the_surface() {
    assert_eq!(surface_scale(d(1.0)), d(1.0));
    assert_eq!(surface_scale(d(2.0)), d(1.5));
    assert_eq!(surface_side(d(0.0)), d(1.0));
    assert_eq!(surface_side(d(800.5)), d(800.5));
    assert_eq!(surface_side(d(f64::NAN)), d(1.0));
}

#[test]
fn choice_among_offers() {
    assert_eq!(pick_preferred(&vec![false, true, true]), 1);
    assert_eq!(pick_preferred(&vec![false, false]), 0);
    assert_eq!(pick_preferred(&vec![true]), 0);
}

#[test]
fn surface_textures() {
    assert_eq!(present_current_surface(true, false), PresentAction::Draw);
    assert_eq!(present_current_surface(true, true), PresentAction::Draw);
    assert_eq!(present_current_surface(false, false), PresentAction::Reconfigure);
    assert_eq!(present_current_surface(false, true), PresentAction::Skip);
}

#[test]
fn parameter_block() {
    let mut g = GpuState::new(640, 480, d(0.0));
    let plan = g.trace_one_pass();
    let u = GpuState::write_uniforms(&plan, b(640.0), b(480.0), &camera());
    assert_eq!(u.resolution, [b(640.0), b(480.0), 0, 0]);
    assert_eq!(u.seed_data, plan.seeds);
    assert_eq!(u.cam_eye, [1, 2, 3, 0]);
    assert_eq!(u.cam_forward, [4, 5, 6, 0]);
    assert_eq!(u.cam_right, [7, 8, 9, 0]);
    assert_eq!(u.cam_up, [10, 11, 12, 0]);
    assert_eq!(u.cam_params, [13, 14, 15, CAMERA_LENS_RADIUS]);
    assert_eq!(CAMERA_LENS_RADIUS, b(0.035));
}

#[test]
fn bytes_of_the_parameter_block() {
    let u = block(b(640.0), b(480.0), [0x0102_0304, 5, 6, 7]);
    let bytes = uniform_bytes(&u);
    assert_eq!(bytes.len(), 112);
    assert_eq!(bytes[0..4], 640.0f32.to_ne_bytes());
    assert_eq!(bytes[4..8], 480.0f32.to_ne_bytes());
    assert_eq!(bytes[16..20], 0x0102_0304u32.to_ne_bytes());
    assert_eq!(bytes[32..36], 1u32.to_ne_bytes());
    assert_eq!(bytes[108..112], 0.035f32.to_ne_bytes());
}

#[test]
fn different_blocks_have_different_bytes() {
    let a = block(1, 2, [3, 4, 5, 6]);
    let mut c = a;
    c.cam_up[2] = 0x0c00_0000;
    assert_ne!(uniform_bytes(&a), uniform_bytes(&c));
    assert_eq!(uniform_bytes(&a), uniform_bytes(&block(1, 2, [3, 4, 5, 6])));
}

#[test]
fn camera_axes() {
    assert!(!axis_has_direction(b(1e-8)));
    assert!(axis_has_direction(b(2e-8)));
    assert!(axis_has_direction(b(1.0)));
    assert!(axis_has_direction(b(f32::NAN)));
}
