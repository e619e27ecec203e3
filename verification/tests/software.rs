use canvas_demos::ray_tracer::cpu::{Rates, State};
use canvas_demos::ray_tracer::hud::{hud_font, hud_pad, hud_width};
use canvas_demos::ray_tracer::path::{PathEvent, PathTracer};
use canvas_demos::ray_tracer::progress::{
    FrameAction, FrameEvent, FrameRun, FRAME_BUDGET_MS, PIXEL_BATCH,
};
use canvas_demos::ray_tracer::rng::seed_for_pixel;
use canvas_demos::ray_tracer::units::V3;

fn d(v: f64) -> u64 {
    v.to_bits()
}

fn b(v: f32) -> u32 {
    v.to_bits()
}

/// Traces the next pixel with a path of one ray.
fn trace(state: &mut State, run: &mut FrameRun) -> FrameAction {
    let mut path: PathTracer = state.begin_pixel(run).path;
    path.step(PathEvent::Escaped);
    state.trace_pixel(run, &path, V3::splat(b(0.5)), (1, 2, 3))
}

/// Plays a frame in which the clock shows `elapsed` whenever it is read.
fn play(state: &mut State, elapsed: f64) -> (usize, u32) {
    let mut run = state.plan_frame().unwrap();
    let mut pixels: usize = 0;
    let mut passes: u32 = 0;
    let mut action = state.frame(&mut run, FrameEvent::Started);
    loop {
        action = match action {
            FrameAction::TracePixel => {
                pixels += 1;
                trace(state, &mut run)
            }
            FrameAction::ReadClock => {
                state.frame(&mut run, FrameEvent::ClockRead { elapsed: d(elapsed) })
            }
            FrameAction::TimePass => {
                passes += 1;
                state.frame(&mut run, FrameEvent::PassTimed { now: d(99.0), took: d(9.0) })
            }
            FrameAction::Finish => return (pixels, passes),
        };
    }
}

#[test]
fn new_renderer() {
    let s = State::new(3, 2, d(5.0));
    assert_eq!(s.accum, vec![0; 18]);
    assert_eq!(s.pixels, vec![0; 24]);
    assert_eq!(s.sample_counts, vec![0; 6]);
    let seeds: Vec<u32> = (0..6).map(|i| seed_for_pixel(i, 0xA53B_1F27)).collect();
    assert_eq!(s.rng_states, seeds);
    assert_eq!(s.rng_states[0], 1239801559);
    assert_eq!(s.cam_pitch, b(0.15));
    assert_eq!(s.cam_yaw, b(0.0));
    assert_eq!(s.progress.pass_start_time, d(5.0));
    assert_eq!(s.stats_window_start, d(5.0));
    assert_eq!(s.frame, 0);
    assert!(!s.mouse_down);
}

#[test]
fn minimum_of_pixels() {
    let cases: [(usize, usize); 6] = [
        (1, 1024),
        (192 * 1024, 1024),
        (192 * 1025, 1025),
        (192 * 5000 + 191, 5000),
        (192 * 16384, 16384),
        (192 * 20000, 16384),
    ];
    for (total, least) in cases {
        assert_eq!(FrameRun::new(total).min_pixels, least);
    }
    assert_eq!(FRAME_BUDGET_MS, d(12.0));
    assert_eq!(PIXEL_BATCH, 256);
}

#[test]
fn small_picture_is_traced_once_per_frame() {
    let mut s = State::new(20, 30, d(0.0));
    assert_eq!(play(&mut s, 0.0), (600, 1));
    assert_eq!(s.progress.iteration, 1);
    assert_eq!(s.progress.next_pixel, 0);
    assert_eq!(s.progress.last_pass_samples, 600);
    assert_eq!(s.progress.last_pass_rays, 600);
    assert_eq!(s.progress.last_pass_ms, d(9.0));
    assert_eq!(s.progress.pass_start_time, d(99.0));
    assert_eq!(s.progress.window_passes, 1);
    assert_eq!(s.progress.window_samples, 600);
    assert!(s.sample_counts.iter().all(|c| *c == 1));
}

#[test]
fn slow_frame_stops_after_its_minimum() {
    let mut s = State::new(100, 50, d(0.0));
    assert_eq!(play(&mut s, 12.0), (1024, 0));
    assert_eq!(s.progress.next_pixel, 1024);
    assert_eq!(s.sample_counts[1023], 1);
    assert_eq!(s.sample_counts[1024], 0);
}

#[test]
fn fast_frame_traces_the_picture() {
    let mut s = State::new(100, 50, d(0.0));
    assert_eq!(play(&mut s, 11.9), (5000, 1));
    assert_eq!(s.progress.iteration, 1);
}

#[test]
fn frame_goes_on_into_the_next_pass() {
    let mut s = State::new(100, 50, d(0.0));
    play(&mut s, 12.0);
    assert_eq!(play(&mut s, 0.0), (5000, 1));
    assert_eq!(s.progress.next_pixel, 1024);
    assert_eq!(s.sample_counts[0], 2);
    assert_eq!(s.sample_counts[1023], 2);
    assert_eq!(s.sample_counts[1024], 1);
}

#[test]
fn pixel_job() {
    let mut s = State::new(3, 2, d(0.0));
    let mut run = s.plan_frame().unwrap();
    s.frame(&mut run, FrameEvent::Started);
    let job = s.begin_pixel(&run);
    assert_eq!((job.x, job.y), (0, 0));
    assert_eq!(job.jitter, (2445971174, 330743502));
    assert_eq!(job.lens, (871889305, 1828117633));
    assert_eq!(job.path, PathTracer::begin(1477802963));
    assert_eq!(job.samples, 1);
    for _ in 0..4 {
        trace(&mut s, &mut run);
    }
    let job = s.begin_pixel(&run);
    assert_eq!((job.x, job.y), (1, 1));
    assert_eq!(s.pixels[0..8], [1, 2, 3, 255, 1, 2, 3, 255]);
    assert_eq!(s.accum[9..12], [b(0.5), b(0.5), b(0.5)]);
    assert_eq!(s.accum[12..15], [0, 0, 0]);
    assert_eq!(s.rng_states[0], 1477802963);
}

#[test]
fn picture_without_pixels() {
    let s = State::new(0, 40, d(0.0));
    assert!(s.plan_frame().is_none());
    assert!(s.pass_progress().is_none());
    let s = State::new(40, 0, d(0.0));
    assert!(s.plan_frame().is_none());
}

#[test]
fn resized_picture() {
    let mut s = State::new(20, 30, d(0.0));
    play(&mut s, 0.0);
    s.begin_frame(d(7.0));
    assert_eq!(s.frame, 1);
    assert_eq!(s.last_time, d(7.0));
    s.resize(20, 30, d(8.0));
    assert_eq!(s.progress.iteration, 1);
    s.resize(3, 1, d(8.0));
    assert_eq!(s.rng_states, vec![2891461509, 3639257914, 92087023]);
    assert_eq!(s.progress.iteration, 0);
    assert_eq!(s.progress.pass_start_time, d(8.0));
    assert_eq!(s.progress.last_pass_rays, 600);
    assert_eq!(s.accum.len(), 9);
    assert_eq!(s.pixels.len(), 12);
}

#[test]
fn dragging_clears_the_picture() {
    let mut s = State::new(2, 1, d(0.0));
    play(&mut s, 0.0);
    assert_eq!(s.drag_distance(5, 5), None);
    s.drag(5, 5, b(1.0), b(1.0), d(3.0));
    assert_eq!(s.progress.iteration, 1);
    s.press(10, 20);
    assert_eq!(s.drag_distance(13, 16), Some((3, -4)));
    s.drag(13, 16, b(0.015), b(1.3), d(3.0));
    assert_eq!(s.cam_yaw, b(0.015));
    assert_eq!(s.cam_pitch, b(1.2));
    assert_eq!(s.last_mouse, (13, 16));
    assert_eq!(s.progress.iteration, 0);
    assert_eq!(s.progress.last_pass_rays, 0);
    assert_eq!(s.sample_counts, vec![0, 0]);
    assert_eq!(s.pixels, vec![0; 8]);
    assert_eq!(s.rng_states, vec![2891337861, 3639134266]);
    s.drag(13, 17, b(0.0), b(-9.0), d(3.0));
    assert_eq!(s.cam_pitch, b(-1.2));
    s.release();
    assert_eq!(s.drag_distance(0, 0), None);
}

#[test]
fn farthest_drag() {
    let mut s = State::new(1, 1, d(0.0));
    s.press(i32::MIN, i32::MAX);
    assert_eq!(s.drag_distance(i32::MAX, i32::MIN), Some((4294967295, -4294967295)));
}

#[test]
fn statistics_window() {
    let mut s = State::new(20, 30, d(0.0));
    play(&mut s, 0.0);
    let rates = Rates { passes: d(1.0), samples: d(600.0), rays: d(601.0) };
    s.roll_stats(d(999.0), d(999.0), rates);
    assert_eq!(s.progress.window_samples, 600);
    assert_eq!(s.rays_per_sec, d(0.0));
    s.roll_stats(d(1000.0), d(1000.0), rates);
    assert_eq!(s.progress.window_samples, 0);
    assert_eq!(s.progress.window_rays, 0);
    assert_eq!(s.progress.window_passes, 0);
    assert_eq!(s.passes_per_sec, d(1.0));
    assert_eq!(s.samples_per_sec, d(600.0));
    assert_eq!(s.rays_per_sec, d(601.0));
    assert_eq!(s.stats_window_start, d(1000.0));
}

#[test]
fn line_of_figures() {
    let mut s = State::new(100, 50, d(0.0));
    play(&mut s, 12.0);
    assert_eq!(s.pass_progress(), Some((1024, 5000)));
    assert_eq!(hud_pad(d(6.0)), d(8.0));
    assert_eq!(hud_pad(d(16.0)), d(16.0));
    assert_eq!(hud_font(d(9.0)), d(12.0));
    assert_eq!(hud_font(d(24.0)), d(24.0));
    assert_eq!(hud_width(d(100.0)), d(260.0));
    assert_eq!(hud_width(d(800.0)), d(800.0));
}

#[test]
fn frames_are_accounted_for() {
    let mut s = State::new(70, 41, d(0.0));
    let mut next: usize = 0;
    let mut samples: u64 = 0;
    let mut passes: u32 = 0;
    for elapsed in [12.0, 0.0, 13.0, 5.0, 12.0, 0.0] {
        let (traced, _) = play(&mut s, elapsed);
        passes += ((next + traced) / 2870) as u32;
        next = (next + traced) % 2870;
        samples += traced as u64;
        assert_eq!(s.progress.next_pixel, next);
        assert_eq!(s.progress.window_samples, samples);
        assert_eq!(s.progress.iteration, passes);
        assert_eq!(s.progress.window_passes, passes);
        assert!(traced >= 1024 && traced < 2870 + 256);
    }
}
