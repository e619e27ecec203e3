//! The hardware renderer: its two accumulation targets, the pace of its passes,
//! its input and its statistics.

use vstd::prelude::*;
use crate::bits32;
use crate::bits64::{self, less};
use crate::ray_tracer::cpu::{dragged_by, window_is_over, Rates, FIRST_PITCH, FIRST_SALT, HIGHEST_PITCH, LOWEST_PITCH, STATS_WINDOW_MS};
use crate::ray_tracer::path::MAX_BOUNCE;
use crate::ray_tracer::uniforms::{padded, Camera, Uniforms, CAMERA_LENS_RADIUS};

verus! {

/// The most passes in a frame.
pub const MAX_TRACE_PASSES_PER_FRAME: u32 = 24;

/// The passes in the first frame.
pub const FIRST_PASSES: u32 = 4;

/// What a cleared picture adds to the salt.
pub const SALT_STEP: u32 = 0x9E37_79B9;

/// A frame that takes longer than this many milliseconds (18) has too many
/// passes.
pub const SLOW_FRAME_MS: u64 = 0x4032_0000_0000_0000;

/// A frame that takes less than this many milliseconds (14) has room for more.
pub const FAST_FRAME_MS: u64 = 0x402c_0000_0000_0000;

/// What the first frame is taken to have lasted, in milliseconds (16).
pub const FIRST_FRAME_MS: u64 = 0x4030_0000_0000_0000;

/// The most pixels per unit of length (1.5).
pub const RENDER_SCALE_MAX: u64 = 0x3ff8_0000_0000_0000;

/// Statistics. Times and rates are double-precision patterns.
#[derive(Clone, Copy, PartialEq, Eq, Structural, Debug)]
pub struct Stats {
    pub last_pass_ms: u64,
    pub last_frame_ms: u64,
    pub last_frame_passes: u32,
    pub passes_per_sec: u64,
    pub samples_per_sec: u64,
    pub rays_per_sec_est: u64,
    pub rays_per_pass_est: u64,
    pub total_rays_est: u64,
    pub total_samples: u64,
    pub window_start: u64,
    pub window_passes: u32,
    pub window_samples: u64,
    pub window_rays_est: u64,
}

/// The hardware renderer.
#[derive(Clone, Copy, Debug)]
pub struct GpuState {
    pub width: u32,
    pub height: u32,
    /// The target that holds the picture so far.
    pub read_idx: usize,
    /// The target that the next pass draws on.
    pub write_idx: usize,
    pub frame: u32,
    pub iteration: u32,
    pub seed_salt: u32,
    pub mouse_down: bool,
    pub last_mouse: (i32, i32),
    pub cam_yaw: u32,
    pub cam_pitch: u32,
    pub last_frame_start: u64,
    pub adaptive_passes: u32,
    pub stats: Stats,
}

/// What a pass reads, what it draws on and how it is seeded.
#[derive(Clone, Copy, Debug)]
pub struct PassPlan {
    pub source: usize,
    pub target: usize,
    pub seeds: [u32; 4],
}

/// What to do about a surface texture.
#[derive(Clone, Copy, PartialEq, Eq, Structural, Debug)]
pub enum PresentAction {
    /// Draw on it.
    Draw,
    /// Configure the surface again and ask once more.
    Reconfigure,
    /// Leave this frame out.
    Skip,
}

impl Stats {
    /// All statistics at zero, with a window that starts `now`.
    pub open spec fn cleared(now: u64) -> Stats {
        Stats {
            last_pass_ms: bits64::ZERO,
            last_frame_ms: bits64::ZERO,
            last_frame_passes: 0,
            passes_per_sec: bits64::ZERO,
            samples_per_sec: bits64::ZERO,
            rays_per_sec_est: bits64::ZERO,
            rays_per_pass_est: 0,
            total_rays_est: 0,
            total_samples: 0,
            window_start: now,
            window_passes: 0,
            window_samples: 0,
            window_rays_est: 0,
        }
    }
}

/// The number of passes after a frame that took `delta` milliseconds.
pub open spec fn adapted(passes: u32, delta: u64) -> u32 {
    if less(SLOW_FRAME_MS, delta) && passes > 1 {
        (passes - 1) as u32
    } else if less(delta, FAST_FRAME_MS) && passes < MAX_TRACE_PASSES_PER_FRAME {
        (passes + 1) as u32
    } else {
        passes
    }
}

impl GpuState {
    /// One target is read while the other is drawn on, and they have changed
    /// places with every pass since the picture was cleared; the number of
    /// passes is within its limits, and the rays of a pass can be counted.
    pub open spec fn wf(self) -> bool {
        &&& self.read_idx < 2
        &&& self.write_idx < 2
        &&& self.read_idx != self.write_idx
        &&& self.read_idx == self.iteration % 2
        &&& self.frame == self.iteration
        &&& 1 <= self.adaptive_passes <= MAX_TRACE_PASSES_PER_FRAME
        &&& self.width * self.height * MAX_BOUNCE <= u64::MAX
    }

    /// The renderer with the picture cleared at time `now`.
    pub open spec fn cleared(self, now: u64) -> GpuState {
        GpuState {
            iteration: 0,
            frame: 0,
            read_idx: 0,
            write_idx: 1,
            seed_salt: self.seed_salt.wrapping_add(SALT_STEP),
            stats: Stats::cleared(now),
            ..self
        }
    }

    /// The renderer after a pass: the targets have changed places.
    pub open spec fn passed(self) -> GpuState {
        GpuState {
            read_idx: self.write_idx,
            write_idx: self.read_idx,
            iteration: self.iteration.wrapping_add(1),
            frame: self.frame.wrapping_add(1),
            ..self
        }
    }

    /// The renderer after `n` passes.
    pub open spec fn after_passes(self, n: nat) -> GpuState
        decreases n,
    {
        if n == 0 {
            self
        } else {
            self.after_passes((n - 1) as nat).passed()
        }
    }

    /// A renderer that has not drawn anything yet.
    pub open spec fn fresh(width: u32, height: u32, now: u64) -> GpuState {
        GpuState {
            width,
            height,
            read_idx: 0,
            write_idx: 1,
            frame: 0,
            iteration: 0,
            seed_salt: FIRST_SALT.wrapping_add(SALT_STEP),
            mouse_down: false,
            last_mouse: (0, 0),
            cam_yaw: bits32::ZERO,
            cam_pitch: FIRST_PITCH,
            last_frame_start: bits64::ZERO,
            adaptive_passes: FIRST_PASSES,
            stats: Stats::cleared(now),
        }
    }

    /// The renderer with the mouse button up.
    pub open spec fn released(self) -> GpuState {
        GpuState { mouse_down: false, ..self }
    }

    /// Whether the picture has to change its size to be as large as asked.
    pub open spec fn needs_resize(self, size: Option<(u32, u32)>) -> bool {
        size matches Some((w, h)) && (w != self.width || h != self.height)
    }

    /// The renderer after it was asked for a size.
    pub open spec fn resized(self, size: Option<(u32, u32)>, now: u64) -> GpuState {
        if self.needs_resize(size) {
            GpuState { width: size.unwrap().0, height: size.unwrap().1, ..self.cleared(now) }
        } else {
            self
        }
    }

    /// The renderer after a pass was counted.
    pub open spec fn counted(self, pass_ms: u64) -> GpuState {
        let samples = (self.width * self.height) as u64;
        let rays = (self.width * self.height * MAX_BOUNCE) as u64;
        GpuState {
            stats: Stats {
                last_pass_ms: pass_ms,
                window_passes: self.stats.window_passes.wrapping_add(1),
                rays_per_pass_est: rays,
                total_samples: self.stats.total_samples.wrapping_add(samples),
                total_rays_est: self.stats.total_rays_est.wrapping_add(rays),
                window_samples: self.stats.window_samples.wrapping_add(samples),
                window_rays_est: self.stats.window_rays_est.wrapping_add(rays),
                ..self.stats
            },
            ..self
        }
    }

    /// The renderer after a look at its statistics window.
    pub open spec fn rolled(self, now: u64, elapsed: u64, rates: Rates) -> GpuState {
        if window_is_over(elapsed) {
            GpuState {
                stats: Stats {
                    passes_per_sec: rates.passes,
                    samples_per_sec: rates.samples,
                    rays_per_sec_est: rates.rays,
                    window_start: now,
                    window_passes: 0,
                    window_samples: 0,
                    window_rays_est: 0,
                    ..self.stats
                },
                ..self
            }
        } else {
            self
        }
    }

    /// What the last frame is taken to have lasted.
    pub open spec fn last_frame(self, since_last: u64) -> u64 {
        if less(bits64::ZERO, self.last_frame_start) {
            since_last
        } else {
            FIRST_FRAME_MS
        }
    }

    /// The renderer at the beginning of a frame.
    pub open spec fn begun(self, now: u64, since_last: u64) -> GpuState {
        GpuState {
            last_frame_start: now,
            adaptive_passes: adapted(self.adaptive_passes, self.last_frame(since_last)),
            ..self
        }
    }

    /// The passes of the frame that has begun.
    pub open spec fn passes_of_a_frame(self) -> u32 {
        if self.mouse_down {
            1
        } else {
            self.adaptive_passes
        }
    }

    /// The renderer at the end of a frame.
    pub open spec fn finished(self, passes: u32, frame_ms: u64) -> GpuState {
        GpuState {
            stats: Stats { last_frame_passes: passes, last_frame_ms: frame_ms, ..self.stats },
            ..self
        }
    }

    /// The renderer with the mouse button down at a point.
    pub open spec fn pressed(self, x: i32, y: i32) -> GpuState {
        GpuState { mouse_down: true, last_mouse: (x, y), ..self }
    }

    /// The renderer after the mouse was moved to a point.
    pub open spec fn dragged(self, x: i32, y: i32, yaw: u32, pitch: u32, now: u64) -> GpuState {
        if self.mouse_down {
            GpuState {
                cam_yaw: yaw,
                cam_pitch: bits32::clamped(pitch, LOWEST_PITCH, HIGHEST_PITCH),
                last_mouse: (x, y),
                ..self.cleared(now)
            }
        } else {
            self
        }
    }

    /// What the next pass is seeded with.
    pub open spec fn pass_seeds(self) -> Seq<u32> {
        seq![self.seed_salt, self.iteration, self.frame, 0u32]
    }

    /// Whether this is the plan of the next pass.
    pub open spec fn is_planned(self, plan: PassPlan) -> bool {
        &&& plan.source == self.read_idx
        &&& plan.target == self.write_idx
        &&& plan.seeds@ == self.pass_seeds()
    }

    /// A renderer for a picture of the given size, at time `now`.
    pub fn new(width: u32, height: u32, now: u64) -> (r: GpuState)
        requires
            width * height * MAX_BOUNCE <= u64::MAX,
        ensures
            r.wf(),
            r == GpuState::fresh(width, height, now),
    {
        let mut r: GpuState = GpuState {
            width,
            height,
            read_idx: 0,
            write_idx: 1,
            frame: 0,
            iteration: 0,
            seed_salt: FIRST_SALT,
            mouse_down: false,
            last_mouse: (0, 0),
            cam_yaw: bits32::ZERO,
            cam_pitch: FIRST_PITCH,
            last_frame_start: bits64::ZERO,
            adaptive_passes: FIRST_PASSES,
            stats: GpuState::no_stats(now),
        };
        r.clear_accumulation(now);
        r
    }

    /// All statistics at zero.
    fn no_stats(now: u64) -> (r: Stats)
        ensures
            r == Stats::cleared(now),
    {
        Stats {
            last_pass_ms: bits64::ZERO,
            last_frame_ms: bits64::ZERO,
            last_frame_passes: 0,
            passes_per_sec: bits64::ZERO,
            samples_per_sec: bits64::ZERO,
            rays_per_sec_est: bits64::ZERO,
            rays_per_pass_est: 0,
            total_rays_est: 0,
            total_samples: 0,
            window_start: now,
            window_passes: 0,
            window_samples: 0,
            window_rays_est: 0,
        }
    }

    /// Starts the picture anew at time `now`. The caller clears both targets.
    pub fn clear_accumulation(&mut self, now: u64)
        ensures
            *final(self) == old(self).cleared(now),
            old(self).wf() ==> final(self).wf(),
    {
        self.iteration = 0;
        self.frame = 0;
        self.read_idx = 0;
        self.write_idx = 1;
        self.seed_salt = self.seed_salt.wrapping_add(SALT_STEP);
        self.stats = GpuState::no_stats(now);
    }

    /// Takes the picture to the size of the window, if that could be read and is
    /// not the size it has. The result tells whether the surface and the targets
    /// have to be made anew.
    pub fn resize_if_needed(&mut self, size: Option<(u32, u32)>, now: u64) -> (r: bool)
        requires
            old(self).wf(),
            size matches Some((w, h)) ==> w * h * MAX_BOUNCE <= u64::MAX,
        ensures
            final(self).wf(),
            r == old(self).needs_resize(size),
            *final(self) == old(self).resized(size, now),
    {
        match size {
            Some((w, h)) => {
                if w == self.width && h == self.height {
                    return false;
                }
                self.width = w;
                self.height = h;
                self.clear_accumulation(now);
                true
            },
            None => false,
        }
    }

    /// Plans a pass and moves on to the next: the target that the pass draws on
    /// is the one that is read from then on.
    pub fn trace_one_pass(&mut self) -> (plan: PassPlan)
        requires
            old(self).wf(),
        ensures
            old(self).is_planned(plan),
            *final(self) == old(self).passed(),
            final(self).wf(),
    {
        let plan: PassPlan = PassPlan {
            source: self.read_idx,
            target: self.write_idx,
            seeds: [self.seed_salt, self.iteration, self.frame, 0],
        };
        assert(plan.seeds@ =~= self.pass_seeds());
        let tmp: usize = self.read_idx;
        self.read_idx = self.write_idx;
        self.write_idx = tmp;
        self.iteration = self.iteration.wrapping_add(1);
        self.frame = self.frame.wrapping_add(1);
        plan
    }

    /// The parameters of a planned pass: `w` and `h` are the size of the picture
    /// in single-precision patterns.
    pub fn write_uniforms(plan: &PassPlan, w: u32, h: u32, cam: &Camera) -> (r: Uniforms)
        ensures
            r.describes(w, h, plan.seeds, *cam),
    {
        let r: Uniforms = Uniforms {
            resolution: [w, h, bits32::ZERO, bits32::ZERO],
            seed_data: plan.seeds,
            cam_eye: [cam.eye.x, cam.eye.y, cam.eye.z, bits32::ZERO],
            cam_forward: [cam.forward.x, cam.forward.y, cam.forward.z, bits32::ZERO],
            cam_right: [cam.right.x, cam.right.y, cam.right.z, bits32::ZERO],
            cam_up: [cam.up.x, cam.up.y, cam.up.z, bits32::ZERO],
            cam_params: [
                cam.tan_half_fov_x,
                cam.tan_half_fov_y,
                cam.focus_dist,
                CAMERA_LENS_RADIUS,
            ],
        };
        assert(r.resolution@ =~= seq![w, h, bits32::ZERO, bits32::ZERO]);
        assert(r.cam_eye@ =~= padded(cam.eye));
        assert(r.cam_forward@ =~= padded(cam.forward));
        assert(r.cam_right@ =~= padded(cam.right));
        assert(r.cam_up@ =~= padded(cam.up));
        assert(r.cam_params@ =~= seq![
            cam.tan_half_fov_x,
            cam.tan_half_fov_y,
            cam.focus_dist,
            CAMERA_LENS_RADIUS,
        ]);
        r
    }

    /// Counts a pass that took `pass_ms` milliseconds. As many rays are counted
    /// as the pass can have traced at most.
    pub fn update_stats(&mut self, pass_ms: u64)
        requires
            old(self).wf(),
        ensures
            *final(self) == old(self).counted(pass_ms),
            final(self).wf(),
    {
        proof {
            let w = self.width as int;
            let h = self.height as int;
            assert(0 <= w * h <= u64::MAX) by (nonlinear_arith)
                requires
                    0 <= w <= u32::MAX,
                    0 <= h <= u32::MAX,
            ;
        }
        self.stats.last_pass_ms = pass_ms;
        self.stats.window_passes = self.stats.window_passes.wrapping_add(1);
        let samples: u64 = self.width as u64 * self.height as u64;
        let rays: u64 = samples * MAX_BOUNCE as u64;
        self.stats.rays_per_pass_est = rays;
        self.stats.total_samples = self.stats.total_samples.wrapping_add(samples);
        self.stats.total_rays_est = self.stats.total_rays_est.wrapping_add(rays);
        self.stats.window_samples = self.stats.window_samples.wrapping_add(samples);
        self.stats.window_rays_est = self.stats.window_rays_est.wrapping_add(rays);
    }

    /// Closes the statistics window if it has lasted long enough: `elapsed` is
    /// its length at time `now`, `rates` what its counters amount to per second.
    /// The result tells whether it was closed.
    pub fn roll_stats(&mut self, now: u64, elapsed: u64, rates: Rates) -> (r: bool)
        ensures
            r == window_is_over(elapsed),
            *final(self) == old(self).rolled(now, elapsed, rates),
    {
        if !bits64::le(STATS_WINDOW_MS, elapsed) {
            return false;
        }
        self.stats.passes_per_sec = rates.passes;
        self.stats.samples_per_sec = rates.samples;
        self.stats.rays_per_sec_est = rates.rays;
        self.stats.window_start = now;
        self.stats.window_passes = 0;
        self.stats.window_samples = 0;
        self.stats.window_rays_est = 0;
        true
    }

    /// Begins a frame at time `now`, `since_last` milliseconds after the last
    /// one began, and says how many passes it has. The number follows the pace
    /// of the frames; while the camera is dragged it is one.
    pub fn draw_frame(&mut self, now: u64, since_last: u64) -> (passes: u32)
        requires
            old(self).wf(),
        ensures
            *final(self) == old(self).begun(now, since_last),
            passes == final(self).passes_of_a_frame(),
            final(self).wf(),
    {
        let delta: u64 = if bits64::lt(bits64::ZERO, self.last_frame_start) {
            since_last
        } else {
            FIRST_FRAME_MS
        };
        self.last_frame_start = now;
        if bits64::lt(SLOW_FRAME_MS, delta) && self.adaptive_passes > 1 {
            self.adaptive_passes = self.adaptive_passes - 1;
        } else if bits64::lt(delta, FAST_FRAME_MS) && self.adaptive_passes
            < MAX_TRACE_PASSES_PER_FRAME {
            self.adaptive_passes = self.adaptive_passes + 1;
        }
        if self.mouse_down {
            1
        } else {
            self.adaptive_passes
        }
    }

    /// Ends a frame of `passes` passes that took `frame_ms` milliseconds.
    pub fn finish_frame(&mut self, passes: u32, frame_ms: u64)
        ensures
            *final(self) == old(self).finished(passes, frame_ms),
    {
        self.stats.last_frame_passes = passes;
        self.stats.last_frame_ms = frame_ms;
    }

    /// The mouse button goes down at a point.
    pub fn press(&mut self, x: i32, y: i32)
        ensures
            *final(self) == old(self).pressed(x, y),
    {
        self.mouse_down = true;
        self.last_mouse = (x, y);
    }

    /// The mouse button comes up.
    pub fn release(&mut self)
        ensures
            *final(self) == old(self).released(),
    {
        self.mouse_down = false;
    }

    /// How far the mouse was dragged to a point; nothing if its button is up.
    pub fn drag_distance(&self, x: i32, y: i32) -> (r: Option<(i64, i64)>)
        ensures
            r == dragged_by(self.mouse_down, self.last_mouse, (x, y)),
    {
        if self.mouse_down {
            Some((x as i64 - self.last_mouse.0 as i64, y as i64 - self.last_mouse.1 as i64))
        } else {
            None
        }
    }

    /// The mouse was dragged to a point, which turns the camera: the picture
    /// starts anew. Nothing happens if the mouse button is up.
    pub fn drag(&mut self, x: i32, y: i32, yaw: u32, pitch: u32, now: u64)
        ensures
            *final(self) == old(self).dragged(x, y, yaw, pitch, now),
            old(self).wf() ==> final(self).wf(),
    {
        if self.mouse_down {
            self.cam_yaw = yaw;
            self.cam_pitch = bits32::clamp(pitch, LOWEST_PITCH, HIGHEST_PITCH);
            self.last_mouse = (x, y);
            self.clear_accumulation(now);
        }
    }
}

/// The pixels per unit of length of the device, but not more than the limit.
pub open spec fn capped_scale(dpr: u64) -> u64 {
    bits64::lesser(dpr, RENDER_SCALE_MAX)
}

/// A side of the surface, but at least one.
pub open spec fn least_side(side: u64) -> u64 {
    bits64::greater(side, bits64::ONE)
}

/// What is to be done about a surface texture.
pub open spec fn after_asking(acquired: bool, again: bool) -> PresentAction {
    if acquired {
        PresentAction::Draw
    } else if again {
        PresentAction::Skip
    } else {
        PresentAction::Reconfigure
    }
}

/// The pixels per unit of length: those of the device (`dpr`), but not more than
/// the limit.
pub fn surface_scale(dpr: u64) -> (r: u64)
    ensures
        r == capped_scale(dpr),
{
    bits64::min(dpr, RENDER_SCALE_MAX)
}

/// The side of the surface: what was computed, but at least one.
pub fn surface_side(side: u64) -> (r: u64)
    ensures
        r == least_side(side),
{
    bits64::max(side, bits64::ONE)
}

/// What to do after asking for a surface texture, for the first time or again.
pub fn present_current_surface(acquired: bool, again: bool) -> (r: PresentAction)
    ensures
        r == after_asking(acquired, again),
{
    if acquired {
        PresentAction::Draw
    } else if again {
        PresentAction::Skip
    } else {
        PresentAction::Reconfigure
    }
}

/// Whether an offer is the first that is preferred, or else the first of all.
pub open spec fn is_pick(preferred: Seq<bool>, r: int) -> bool {
    &&& 0 <= r < preferred.len()
    &&& preferred[r] ==> forall|j: int| 0 <= j < r ==> !#[trigger] preferred[j]
    &&& !preferred[r] ==> r == 0 && forall|j: int|
        0 <= j < preferred.len() ==> !#[trigger] preferred[j]
}

/// The choice among what a surface offers: the first that is preferred, or else
/// the first of all.
pub fn pick_preferred(preferred: &Vec<bool>) -> (r: usize)
    requires
        preferred@.len() > 0,
    ensures
        is_pick(preferred@, r as int),
{
    let mut i: usize = 0;
    while i < preferred.len()
        invariant
            i <= preferred@.len(),
            forall|j: int| 0 <= j < i ==> !#[trigger] preferred@[j],
        decreases preferred@.len() - i,
    {
        if preferred[i] {
            return i;
        }
        i += 1;
    }
    0
}

/// A pass never draws on the target that it reads, the next pass reads what it
/// has drawn, and after two passes the targets are back in their places.
pub proof fn targets_alternate(state: GpuState)
    requires
        state.wf(),
    ensures
        state.read_idx != state.write_idx,
        state.passed().wf(),
        state.passed().read_idx == state.write_idx,
        state.passed().passed().read_idx == state.read_idx,
        state.passed().passed().write_idx == state.write_idx,
{
}

/// After `n` passes the renderer has counted `n` more of them, without losing
/// its order.
proof fn passes_are_counted(state: GpuState, n: nat)
    requires
        state.wf(),
    ensures
        state.after_passes(n).wf(),
        state.after_passes(n).iteration == (state.iteration + n) % 0x1_0000_0000,
        state.after_passes(n).seed_salt == state.seed_salt,
    decreases n,
{
    if n > 0 {
        passes_are_counted(state, (n - 1) as nat);
    }
}

/// As long as the picture is not cleared, no two passes over it are seeded alike
/// (until the passes can no longer be counted).
pub proof fn passes_are_seeded_apart(state: GpuState, n: nat)
    requires
        state.wf(),
        0 < n < 0x1_0000_0000,
    ensures
        state.after_passes(n).pass_seeds() != state.pass_seeds(),
{
    passes_are_counted(state, n);
    assert(state.after_passes(n).pass_seeds()[1] == state.after_passes(n).iteration);
    assert(state.pass_seeds()[1] == state.iteration);
}

/// After `n` passes over a cleared picture it is in the first target if `n` is
/// even, and in the second otherwise.
pub proof fn picture_is_in_its_target(state: GpuState, now: u64, n: nat)
    requires
        state.wf(),
    ensures
        state.cleared(now).after_passes(n).read_idx == n % 2,
        n < 0x1_0000_0000 ==> state.cleared(now).after_passes(n).iteration == n,
{
    passes_are_counted(state.cleared(now), n);
}

/// A cleared picture is seeded differently from the one before.
pub proof fn clearing_changes_the_salt(state: GpuState, now: u64)
    ensures
        state.cleared(now).seed_salt != state.seed_salt,
        state.cleared(now).iteration == 0,
{
}

/// The number of passes stays within its limits and changes by at most one per
/// frame: down only after a slow frame, up only after a fast one.
pub proof fn pace_is_gentle(passes: u32, delta: u64)
    requires
        1 <= passes <= MAX_TRACE_PASSES_PER_FRAME,
    ensures
        1 <= adapted(passes, delta) <= MAX_TRACE_PASSES_PER_FRAME,
        -1 <= adapted(passes, delta) - passes <= 1,
        adapted(passes, delta) < passes ==> less(SLOW_FRAME_MS, delta),
        adapted(passes, delta) > passes ==> less(delta, FAST_FRAME_MS),
{
}

/// The pitch of a dragged camera stays between its limits.
pub proof fn pitch_stays_in_range(pitch: u32)
    requires
        !bits32::is_nan(pitch),
    ensures
        bits32::at_most(LOWEST_PITCH, bits32::clamped(pitch, LOWEST_PITCH, HIGHEST_PITCH)),
        bits32::at_most(bits32::clamped(pitch, LOWEST_PITCH, HIGHEST_PITCH), HIGHEST_PITCH),
{
}

/// A frame that took more than 18 milliseconds has one pass fewer, if there are
/// two; one that took less than 14 has one more, if there are not 24 already; and
/// otherwise the number stays.
pub proof fn pace_is_adapted(passes: u32, delta: u64)
    requires
        1 <= passes <= 24,
    ensures
        less(0x4032_0000_0000_0000, delta) && passes > 1 ==> adapted(passes, delta) == passes - 1,
        less(0x4032_0000_0000_0000, delta) && passes == 1 ==> adapted(passes, delta) == 1,
        less(delta, 0x402c_0000_0000_0000) && passes < 24 ==> adapted(passes, delta) == passes + 1,
        less(delta, 0x402c_0000_0000_0000) && passes == 24 ==> adapted(passes, delta) == 24,
        !less(0x4032_0000_0000_0000, delta) && !less(delta, 0x402c_0000_0000_0000) ==> adapted(
            passes,
            delta,
        ) == passes,
{
}

/// A frame notes when it began and adapts the pace to how long the last one took,
/// or to 16 milliseconds if it is the first. It draws as many passes as the pace
/// says, but only one while the camera is dragged, and changes nothing else.
pub proof fn frames_keep_the_pace(state: GpuState, now: u64, since_last: u64)
    ensures
        ({
            let after = state.begun(now, since_last);
            &&& after.last_frame_start == now
            &&& less(0, state.last_frame_start) ==> after.adaptive_passes == adapted(
                state.adaptive_passes,
                since_last,
            )
            &&& !less(0, state.last_frame_start) ==> after.adaptive_passes == adapted(
                state.adaptive_passes,
                0x4030_0000_0000_0000,
            )
            &&& after.mouse_down ==> after.passes_of_a_frame() == 1
            &&& !after.mouse_down ==> after.passes_of_a_frame() == after.adaptive_passes
            &&& after == (GpuState {
                last_frame_start: after.last_frame_start,
                adaptive_passes: after.adaptive_passes,
                ..state
            })
        }),
{
}

/// A pass adds one to the passes of the window, a sample per pixel to the window
/// and to the total, and ten rays per sample, and keeps its time. Nothing else
/// changes.
pub proof fn passes_are_added_up(state: GpuState, pass_ms: u64)
    requires
        state.wf(),
    ensures
        ({
            let (before, after) = (state.stats, state.counted(pass_ms).stats);
            let pixels = state.width * state.height;
            &&& after.last_pass_ms == pass_ms
            &&& after.window_passes == (before.window_passes + 1) % 0x1_0000_0000
            &&& after.rays_per_pass_est == 10 * pixels
            &&& after.total_samples == (before.total_samples + pixels) % 0x1_0000_0000_0000_0000
            &&& after.window_samples == (before.window_samples + pixels) % 0x1_0000_0000_0000_0000
            &&& after.total_rays_est == (before.total_rays_est + 10 * pixels)
                % 0x1_0000_0000_0000_0000
            &&& after.window_rays_est == (before.window_rays_est + 10 * pixels)
                % 0x1_0000_0000_0000_0000
            &&& after.last_frame_ms == before.last_frame_ms && after.last_frame_passes
                == before.last_frame_passes
            &&& after.passes_per_sec == before.passes_per_sec && after.samples_per_sec
                == before.samples_per_sec && after.rays_per_sec_est == before.rays_per_sec_est
            &&& after.window_start == before.window_start
            &&& state.counted(pass_ms) == (GpuState { stats: after, ..state })
        }),
{
    assert(0 <= state.width * state.height <= u64::MAX) by (nonlinear_arith)
        requires
            0 <= state.width <= u32::MAX,
            0 <= state.height <= u32::MAX,
    ;
}

/// A statistics window that is over shows the rates of its passes, samples and
/// rays, and starts anew with nothing counted; one that is not over stays as it
/// is. The totals are not touched.
pub proof fn windows_are_rolled(state: GpuState, now: u64, elapsed: u64, rates: Rates)
    ensures
        !window_is_over(elapsed) ==> state.rolled(now, elapsed, rates) == state,
        window_is_over(elapsed) ==> {
            let (before, after) = (state.stats, state.rolled(now, elapsed, rates).stats);
            &&& after.passes_per_sec == rates.passes
            &&& after.samples_per_sec == rates.samples
            &&& after.rays_per_sec_est == rates.rays
            &&& after.window_start == now
            &&& after.window_passes == 0 && after.window_samples == 0 && after.window_rays_est == 0
            &&& after.total_samples == before.total_samples && after.total_rays_est
                == before.total_rays_est
            &&& after.last_pass_ms == before.last_pass_ms && after.last_frame_ms
                == before.last_frame_ms
            &&& after.rays_per_pass_est == before.rays_per_pass_est && after.last_frame_passes
                == before.last_frame_passes
            &&& state.rolled(now, elapsed, rates) == (GpuState { stats: after, ..state })
        },
{
}

/// A cleared picture has no passes and reads the first target; its statistics are
/// all zero, from now on. Size, camera, mouse and pace stay.
pub proof fn clearing_starts_anew(state: GpuState, now: u64)
    ensures
        ({
            let after = state.cleared(now);
            &&& after.iteration == 0 && after.frame == 0
            &&& after.read_idx == 0 && after.write_idx == 1
            &&& after.seed_salt == (state.seed_salt + 0x9E37_79B9) % 0x1_0000_0000
            &&& after.stats.window_start == now
            &&& after.stats.last_pass_ms == 0 && after.stats.last_frame_ms == 0
            &&& after.stats.last_frame_passes == 0 && after.stats.rays_per_pass_est == 0
            &&& after.stats.passes_per_sec == 0 && after.stats.samples_per_sec == 0
                && after.stats.rays_per_sec_est == 0
            &&& after.stats.total_rays_est == 0 && after.stats.total_samples == 0
            &&& after.stats.window_passes == 0 && after.stats.window_samples == 0
                && after.stats.window_rays_est == 0
            &&& after.width == state.width && after.height == state.height
            &&& after.mouse_down == state.mouse_down && after.last_mouse == state.last_mouse
            &&& after.cam_yaw == state.cam_yaw && after.cam_pitch == state.cam_pitch
            &&& after.last_frame_start == state.last_frame_start && after.adaptive_passes
                == state.adaptive_passes
        }),
{
}

/// A pass is seeded with the salt and with how many passes there were since the
/// picture was cleared. It makes the target that was drawn on the one that is
/// read, and the other way round, counts itself, and changes nothing else.
pub proof fn passes_take_turns(state: GpuState)
    requires
        state.wf(),
    ensures
        state.pass_seeds().len() == 4,
        state.pass_seeds()[0] == state.seed_salt,
        state.pass_seeds()[1] == state.iteration,
        state.pass_seeds()[2] == state.frame,
        state.pass_seeds()[3] == 0,
        state.passed().read_idx == state.write_idx,
        state.passed().write_idx == state.read_idx,
        state.passed().iteration == (state.iteration + 1) % 0x1_0000_0000,
        state.passed().frame == (state.frame + 1) % 0x1_0000_0000,
        state.passed() == (GpuState {
            read_idx: state.passed().read_idx,
            write_idx: state.passed().write_idx,
            iteration: state.passed().iteration,
            frame: state.passed().frame,
            ..state
        }),
{
}

/// The picture follows the window: it takes the size asked for and is cleared just
/// when one is asked for that it does not have.
pub proof fn picture_follows_the_window(state: GpuState, w: u32, h: u32, now: u64)
    ensures
        state.resized(None, now) == state && !state.needs_resize(None),
        w == state.width && h == state.height ==> state.resized(Some((w, h)), now) == state
            && !state.needs_resize(Some((w, h))),
        w != state.width || h != state.height ==> state.needs_resize(Some((w, h))),
        ({
            let after = state.resized(Some((w, h)), now);
            &&& after.width == w && after.height == h
            &&& state.needs_resize(Some((w, h))) ==> after == (GpuState {
                width: w,
                height: h,
                ..state.cleared(now)
            })
        }),
{
}

/// Dragging with the button down turns the camera to the given yaw and to the
/// given pitch, up to 1.2 either way, remembers the point and clears the picture.
/// With the button up nothing happens. Pressing only remembers the point.
pub proof fn dragging_turns_the_camera(
    state: GpuState,
    x: i32,
    y: i32,
    yaw: u32,
    pitch: u32,
    now: u64,
)
    ensures
        !state.mouse_down ==> state.dragged(x, y, yaw, pitch, now) == state,
        state.mouse_down ==> {
            let after = state.dragged(x, y, yaw, pitch, now);
            &&& after.cam_yaw == yaw
            &&& bits32::at_most(0xbf99_999a, pitch) && bits32::at_most(pitch, 0x3f99_999a)
                ==> after.cam_pitch == pitch
            &&& bits32::less(pitch, 0xbf99_999a) ==> after.cam_pitch == 0xbf99_999a
            &&& bits32::less(0x3f99_999a, pitch) ==> after.cam_pitch == 0x3f99_999a
            &&& after.last_mouse == (x, y)
            &&& after == (GpuState {
                cam_yaw: after.cam_yaw,
                cam_pitch: after.cam_pitch,
                last_mouse: after.last_mouse,
                ..state.cleared(now)
            })
        },
        state.pressed(x, y).mouse_down && state.pressed(x, y).last_mouse == (x, y),
        state.pressed(x, y) == (GpuState { mouse_down: true, last_mouse: (x, y), ..state }),
{
}

/// The end of a frame is noted with its passes and its time, and with nothing
/// else.
pub proof fn frames_are_noted(state: GpuState, passes: u32, frame_ms: u64)
    ensures
        state.finished(passes, frame_ms).stats.last_frame_passes == passes,
        state.finished(passes, frame_ms).stats.last_frame_ms == frame_ms,
        state.finished(passes, frame_ms).counted(0) == state.counted(0).finished(passes, frame_ms),
        state.finished(passes, frame_ms).finished(
            state.stats.last_frame_passes,
            state.stats.last_frame_ms,
        ) == state,
{
}

/// The surface has as many pixels per unit as the device, but at most one and a
/// half, and its sides have at least one.
pub proof fn surfaces_are_limited(dpr: u64, side: u64)
    ensures
        bits64::at_most(dpr, 0x3ff8_0000_0000_0000) ==> bits64::same(capped_scale(dpr), dpr),
        !bits64::at_most(dpr, 0x3ff8_0000_0000_0000) ==> capped_scale(dpr) == 0x3ff8_0000_0000_0000,
        bits64::at_most(0x3ff0_0000_0000_0000, side) ==> bits64::same(least_side(side), side),
        !bits64::at_most(0x3ff0_0000_0000_0000, side) ==> least_side(side) == 0x3ff0_0000_0000_0000,
{
}

/// A texture that was got is drawn on. One that was not got is asked for once
/// more, and then left out.
pub proof fn textures_are_asked_for_twice(acquired: bool, again: bool)
    ensures
        after_asking(acquired, again) is Draw <==> acquired,
        after_asking(acquired, again) is Reconfigure <==> !acquired && !again,
        after_asking(acquired, again) is Skip <==> !acquired && again,
{
}

/// A preferred offer is taken if there is one, and none before it is preferred;
/// the first offer is taken if none is. So there is only one choice.
pub proof fn picks_are_unique(preferred: Seq<bool>, r: int, other: int)
    requires
        is_pick(preferred, r),
        0 <= other < preferred.len(),
    ensures
        preferred[other] ==> preferred[r] && r <= other,
        !preferred[r] ==> r == 0,
        is_pick(preferred, other) ==> other == r,
{
}

/// A new renderer looks from the front, slightly from above (a pitch of 0.15),
/// and begins with four passes per frame and a picture that was cleared once.
pub proof fn renderers_start_fresh(width: u32, height: u32, now: u64)
    ensures
        ({
            let r = GpuState::fresh(width, height, now);
            &&& r.width == width && r.height == height
            &&& r.cam_yaw == 0 && r.cam_pitch == 0x3e19_999a
            &&& r.adaptive_passes == 4 && r.last_frame_start == 0
            &&& !r.mouse_down && r.last_mouse == (0i32, 0i32)
            &&& r.iteration == 0 && r.frame == 0 && r.read_idx == 0 && r.write_idx == 1
            &&& r.seed_salt == (0xA53B_1F27 + 0x9E37_79B9) % 0x1_0000_0000
            &&& r.stats == r.cleared(now).stats
        }),
{
}

/// The button that comes up changes nothing but that it is up.
pub proof fn release_ends_a_drag(state: GpuState, x: i32, y: i32)
    ensures
        !state.released().mouse_down,
        state.pressed(x, y).released().last_mouse == (x, y),
        state.released().pressed(x, y) == state.pressed(x, y),
        state.mouse_down ==> (GpuState { mouse_down: true, ..state.released() }) == state,
{
}

/// A pass reads one target and draws on the other. The pass after it reads what it
/// has drawn, and draws on what it has read; both have the salt of the picture,
/// and the numbers of consecutive passes. After a pass its target is the one that
/// is shown.
pub proof fn passes_build_on_each_other(state: GpuState, plan: PassPlan, later: PassPlan)
    requires
        state.wf(),
        state.is_planned(plan),
        state.passed().is_planned(later),
    ensures
        plan.source < 2 && plan.target < 2 && plan.source != plan.target,
        later.source == plan.target && later.target == plan.source,
        state.passed().read_idx == plan.target,
        plan.source == state.iteration % 2,
        plan.seeds@[0] == state.seed_salt && later.seeds@[0] == state.seed_salt,
        plan.seeds@[1] == state.iteration && plan.seeds@[2] == state.frame && plan.seeds@[3] == 0,
        later.seeds@[1] == (plan.seeds@[1] + 1) % 0x1_0000_0000,
        later.seeds@[2] == (plan.seeds@[2] + 1) % 0x1_0000_0000,
{
}

} // verus!
