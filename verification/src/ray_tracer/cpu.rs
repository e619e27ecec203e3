//! The software renderer: its picture, its input and its statistics.

use vstd::arithmetic::div_mod::{lemma_add_mod_noop_right, lemma_fundamental_div_mod};
use vstd::prelude::*;
use crate::bits32;
use crate::bits64::{self, at_most};
use crate::ray_tracer::path::PathTracer;
use crate::ray_tracer::progress::{
    FrameAction, FrameEvent, FrameRun, FrameStep, Progress,
};
use crate::ray_tracer::rng::{
    advanced, drawn, output, seed, seed_for_pixel, seeds_are_distinct, state_after, Rng,
};
use crate::ray_tracer::units::V3;

verus! {

/// The salt of the very first seeds.
pub const FIRST_SALT: u32 = 0xA53B_1F27;

/// Turns a frame number into the salt after a change of size.
pub const RESIZE_SALT: u32 = 977;

/// Turn a frame number into the salt after a turn of the camera.
pub const DRAG_SALT: u32 = 3907;
pub const DRAG_SALT_OFFSET: u32 = 11;

/// The pitch of the camera when the program starts (0.15).
pub const FIRST_PITCH: u32 = 0x3e19_999a;

/// The lowest and highest pitch of the camera (-1.2 and 1.2).
pub const LOWEST_PITCH: u32 = 0xbf99_999a;
pub const HIGHEST_PITCH: u32 = 0x3f99_999a;

/// The length of a statistics window in milliseconds (1000).
pub const STATS_WINDOW_MS: u64 = 0x408f_4000_0000_0000;

/// The software renderer. Colors are single-precision patterns, times and rates
/// double-precision patterns.
pub struct State {
    pub render_w: u32,
    pub render_h: u32,
    /// Three color channels per pixel: the mean of its samples.
    pub accum: Vec<u32>,
    /// Four bytes per pixel: the color on the screen, and opacity.
    pub pixels: Vec<u8>,
    pub sample_counts: Vec<u32>,
    pub rng_states: Vec<u32>,
    pub frame: u32,
    pub progress: Progress,
    pub stats_window_start: u64,
    pub passes_per_sec: u64,
    pub samples_per_sec: u64,
    pub rays_per_sec: u64,
    pub mouse_down: bool,
    pub last_mouse: (i32, i32),
    pub cam_yaw: u32,
    pub cam_pitch: u32,
    pub last_time: u64,
}

/// What is needed to trace a pixel.
#[derive(Clone, Copy, Debug)]
pub struct PixelJob {
    pub x: u32,
    pub y: u32,
    /// The drawn numbers that place the ray within the pixel.
    pub jitter: (u32, u32),
    /// The drawn numbers that place the ray on the lens.
    pub lens: (u32, u32),
    /// The path of the ray.
    pub path: PathTracer,
    /// The number of samples of the pixel, this one included.
    pub samples: u32,
    /// The mean of the samples so far.
    pub mean: V3,
}

/// The rates of a statistics window.
#[derive(Clone, Copy, PartialEq, Eq, Structural, Debug)]
pub struct Rates {
    pub passes: u64,
    pub samples: u64,
    pub rays: u64,
}

/// A vector of zeros.
fn zeros(n: usize) -> (r: Vec<u32>)
    ensures
        r@ == Seq::new(n as nat, |i: int| 0u32),
{
    vec![0u32; n]
}

/// A vector of zero bytes.
fn zero_bytes(n: usize) -> (r: Vec<u8>)
    ensures
        r@ == Seq::new(n as nat, |i: int| 0u8),
{
    vec![0u8; n]
}

/// Whether a picture of this size can be held.
pub open spec fn size_fits(w: u32, h: u32) -> bool {
    &&& w * h <= u32::MAX
    &&& 4 * (w * h) <= usize::MAX
}

/// How far the mouse was dragged to a point; nothing if its button is up.
pub open spec fn dragged_by(down: bool, last: (i32, i32), to: (i32, i32)) -> Option<(i64, i64)> {
    if down {
        Some(((to.0 - last.0) as i64, (to.1 - last.1) as i64))
    } else {
        None
    }
}

/// Whether a statistics window of this length is over.
pub open spec fn window_is_over(elapsed: u64) -> bool {
    at_most(STATS_WINDOW_MS, elapsed)
}

/// The seeds of `n` pixels under `salt`.
pub open spec fn seeds(n: nat, salt: u32) -> Seq<u32> {
    Seq::new(n, |i: int| seed(i as u32, salt))
}

impl State {
    /// The number of pixels.
    pub open spec fn total(self) -> int {
        self.render_w * self.render_h
    }

    /// The buffers have the size of the picture, and it is sampled evenly: each
    /// pixel has one sample per finished pass, and one more if it is before the
    /// next pixel.
    pub open spec fn buffers_wf(self) -> bool {
        &&& size_fits(self.render_w, self.render_h)
        &&& self.accum@.len() == 3 * self.total()
        &&& self.pixels@.len() == 4 * self.total()
        &&& self.sample_counts@.len() == self.total()
        &&& self.rng_states@.len() == self.total()
        &&& forall|i: int|
            0 <= i < self.total() ==> #[trigger] self.sample_counts@[i] == self.progress.iteration + (
            if i < self.progress.next_pixel {
                1int
            } else {
                0
            })
    }

    /// The renderer between two frames.
    pub open spec fn wf(self) -> bool {
        &&& self.buffers_wf()
        &&& self.progress.on_course(self.total(), 0, 0)
        &&& self.progress.next_pixel < self.total() || self.progress.next_pixel == 0
    }

    /// The renderer within a frame that waits for the outcome of `action`.
    pub open spec fn awaits(self, run: FrameRun, action: FrameAction) -> bool {
        &&& self.buffers_wf()
        &&& run.total == self.total()
        &&& self.progress.awaits(run, action)
    }

    /// Whether this is a new renderer for a picture of the given size.
    pub open spec fn is_fresh(self, w: u32, h: u32, now: u64) -> bool {
        &&& self.accum@ == Seq::new((3 * (w * h)) as nat, |i: int| 0u32)
        &&& self.pixels@ == Seq::new((4 * (w * h)) as nat, |i: int| 0u8)
        &&& self.sample_counts@ == Seq::new((w * h) as nat, |i: int| 0u32)
        &&& self.rng_states@ == seeds((w * h) as nat, FIRST_SALT)
        &&& self == (State {
            render_w: w,
            render_h: h,
            accum: self.accum,
            pixels: self.pixels,
            sample_counts: self.sample_counts,
            rng_states: self.rng_states,
            frame: 0,
            progress: Progress::fresh(now),
            stats_window_start: now,
            passes_per_sec: bits64::ZERO,
            samples_per_sec: bits64::ZERO,
            rays_per_sec: bits64::ZERO,
            mouse_down: false,
            last_mouse: (0, 0),
            cam_yaw: bits32::ZERO,
            cam_pitch: FIRST_PITCH,
            last_time: now,
        })
    }

    /// Whether `after` is the renderer with its picture cleared.
    pub open spec fn is_cleared(self, now: u64, after: State) -> bool {
        &&& after.accum@ == Seq::new(self.accum@.len(), |i: int| 0u32)
        &&& after.pixels@ == Seq::new(self.pixels@.len(), |i: int| 0u8)
        &&& after.sample_counts@ == Seq::new(self.sample_counts@.len(), |i: int| 0u32)
        &&& after == (State {
            accum: after.accum,
            pixels: after.pixels,
            sample_counts: after.sample_counts,
            progress: self.progress.cleared(now),
            ..self
        })
    }

    /// Whether `after` is the renderer with a picture of the given size.
    pub open spec fn is_resized(self, w: u32, h: u32, now: u64, after: State) -> bool {
        &&& w == self.render_w && h == self.render_h ==> after == self
        &&& w != self.render_w || h != self.render_h ==> {
            &&& after.accum@ == Seq::new((3 * (w * h)) as nat, |i: int| 0u32)
            &&& after.pixels@ == Seq::new((4 * (w * h)) as nat, |i: int| 0u8)
            &&& after.sample_counts@ == Seq::new((w * h) as nat, |i: int| 0u32)
            &&& after.rng_states@ == seeds((w * h) as nat, self.frame.wrapping_mul(RESIZE_SALT))
            &&& after == (State {
                render_w: w,
                render_h: h,
                accum: after.accum,
                pixels: after.pixels,
                sample_counts: after.sample_counts,
                rng_states: after.rng_states,
                progress: self.progress.restarted(now),
                ..self
            })
        }
    }

    /// The renderer at the beginning of a frame.
    pub open spec fn at_frame(self, now: u64) -> State {
        State { last_time: now, frame: self.frame.wrapping_add(1), ..self }
    }

    /// The work of a frame; none for a picture without pixels.
    pub open spec fn plan(self) -> Option<FrameRun> {
        if self.total() == 0 {
            None
        } else {
            Some(FrameRun::fresh(self.total() as usize))
        }
    }

    /// Whether this is what is needed to trace the next pixel.
    pub open spec fn is_job(self, job: PixelJob) -> bool {
        let i = self.progress.next_pixel as int;
        let s = self.rng_states@[i];
        &&& job.x == i % self.render_w as int
        &&& job.y == i / self.render_w as int
        &&& job.jitter == (drawn(s, 0), drawn(s, 1))
        &&& job.lens == (drawn(s, 2), drawn(s, 3))
        &&& job.path == PathTracer::fresh(state_after(s, 4))
        &&& job.samples == self.sample_counts@[i] + 1
        &&& job.mean == (V3 {
            x: self.accum@[3 * i],
            y: self.accum@[3 * i + 1],
            z: self.accum@[3 * i + 2],
        })
    }

    /// Whether `after` holds the traced pixel in its buffers.
    pub open spec fn is_stored(self, rng: u32, mean: V3, color: (u8, u8, u8), after: State) -> bool {
        let i = self.progress.next_pixel as int;
        &&& after.rng_states@ == self.rng_states@.update(i, rng)
        &&& after.sample_counts@ == self.sample_counts@.update(
            i,
            (self.sample_counts@[i] + 1) as u32,
        )
        &&& after.accum@ == self.accum@.update(3 * i, mean.x).update(3 * i + 1, mean.y).update(
            3 * i + 2,
            mean.z,
        )
        &&& after.pixels@ == self.pixels@.update(4 * i, color.0).update(4 * i + 1, color.1).update(
            4 * i + 2,
            color.2,
        ).update(4 * i + 3, 255u8)
    }

    /// The renderer after a look at its statistics window.
    pub open spec fn rolled(self, now: u64, elapsed: u64, rates: Rates) -> State {
        if window_is_over(elapsed) {
            State {
                passes_per_sec: rates.passes,
                samples_per_sec: rates.samples,
                rays_per_sec: rates.rays,
                stats_window_start: now,
                progress: Progress {
                    window_passes: 0,
                    window_samples: 0,
                    window_rays: 0,
                    ..self.progress
                },
                ..self
            }
        } else {
            self
        }
    }

    /// The renderer with the mouse button down at a point.
    pub open spec fn pressed(self, x: i32, y: i32) -> State {
        State { mouse_down: true, last_mouse: (x, y), ..self }
    }

    /// The renderer with the mouse button up.
    pub open spec fn released(self) -> State {
        State { mouse_down: false, ..self }
    }

    /// Whether `after` is the renderer after the mouse was moved to a point.
    pub open spec fn is_dragged(
        self,
        x: i32,
        y: i32,
        yaw: u32,
        pitch: u32,
        now: u64,
        after: State,
    ) -> bool {
        &&& !self.mouse_down ==> after == self
        &&& self.mouse_down ==> {
            &&& after.accum@ == Seq::new(self.accum@.len(), |i: int| 0u32)
            &&& after.pixels@ == Seq::new(self.pixels@.len(), |i: int| 0u8)
            &&& after.sample_counts@ == Seq::new(self.sample_counts@.len(), |i: int| 0u32)
            &&& after.rng_states@ == seeds(
                self.rng_states@.len(),
                self.frame.wrapping_mul(DRAG_SALT).wrapping_add(DRAG_SALT_OFFSET),
            )
            &&& after == (State {
                accum: after.accum,
                pixels: after.pixels,
                sample_counts: after.sample_counts,
                rng_states: after.rng_states,
                progress: self.progress.cleared(now),
                cam_yaw: yaw,
                cam_pitch: bits32::clamped(pitch, LOWEST_PITCH, HIGHEST_PITCH),
                last_mouse: (x, y),
                ..self
            })
        }
    }

    /// A renderer for a picture of the given size, at time `now`.
    pub fn new(w: u32, h: u32, now: u64) -> (r: State)
        requires
            size_fits(w, h),
        ensures
            r.wf(),
            r.is_fresh(w, h, now),
    {
        let n: usize = (w * h) as usize;
        let mut r: State = State {
            render_w: w,
            render_h: h,
            accum: zeros(n * 3),
            pixels: zero_bytes(n * 4),
            sample_counts: zeros(n),
            rng_states: zeros(n),
            frame: 0,
            progress: Progress {
                iteration: 0,
                next_pixel: 0,
                pass_start_time: now,
                pass_rays: 0,
                pass_samples: 0,
                last_pass_ms: bits64::ZERO,
                last_pass_rays: 0,
                last_pass_samples: 0,
                window_passes: 0,
                window_samples: 0,
                window_rays: 0,
            },
            stats_window_start: now,
            passes_per_sec: bits64::ZERO,
            samples_per_sec: bits64::ZERO,
            rays_per_sec: bits64::ZERO,
            mouse_down: false,
            last_mouse: (0, 0),
            cam_yaw: bits32::ZERO,
            cam_pitch: FIRST_PITCH,
            last_time: now,
        };
        r.reseed_rng_states(FIRST_SALT);
        r
    }

    /// Gives every pixel a new seed.
    pub fn reseed_rng_states(&mut self, salt: u32)
        requires
            old(self).rng_states@.len() <= u32::MAX,
        ensures
            final(self).rng_states@ == seeds(old(self).rng_states@.len(), salt),
            *final(self) == (State { rng_states: final(self).rng_states, ..*old(self) }),
    {
        let n: usize = self.rng_states.len();
        let mut i: usize = 0;
        while i < n
            invariant
                i <= n,
                n == self.rng_states@.len(),
                n == old(self).rng_states@.len(),
                n <= u32::MAX,
                forall|j: int| 0 <= j < i ==> #[trigger] self.rng_states@[j] == seed(j as u32, salt),
                *self == (State { rng_states: self.rng_states, ..*old(self) }),
            decreases n - i,
        {
            let s: u32 = seed_for_pixel(i as u32, salt);
            self.rng_states.set(i, s);
            i += 1;
        }
        assert(self.rng_states@ =~= seeds(old(self).rng_states@.len(), salt));
    }

    /// Clears the picture, at time `now`.
    pub fn reset_accumulation(&mut self, now: u64)
        requires
            old(self).wf(),
        ensures
            final(self).wf(),
            old(self).is_cleared(now, *final(self)),
    {
        self.accum = zeros(self.accum.len());
        self.pixels = zero_bytes(self.pixels.len());
        self.sample_counts = zeros(self.sample_counts.len());
        self.progress.iteration = 0;
        self.progress.next_pixel = 0;
        self.progress.pass_start_time = now;
        self.progress.pass_rays = 0;
        self.progress.pass_samples = 0;
        self.progress.last_pass_ms = bits64::ZERO;
        self.progress.last_pass_rays = 0;
        self.progress.last_pass_samples = 0;
    }

    /// Takes the picture to another size, if that is not the one it has.
    pub fn resize(&mut self, w: u32, h: u32, now: u64)
        requires
            old(self).wf(),
            size_fits(w, h),
        ensures
            final(self).wf(),
            old(self).is_resized(w, h, now, *final(self)),
    {
        if w != self.render_w || h != self.render_h {
            let n: usize = (w * h) as usize;
            self.render_w = w;
            self.render_h = h;
            self.accum = zeros(n * 3);
            self.pixels = zero_bytes(n * 4);
            self.sample_counts = zeros(n);
            self.rng_states = zeros(n);
            self.reseed_rng_states(self.frame.wrapping_mul(RESIZE_SALT));
            self.progress.iteration = 0;
            self.progress.next_pixel = 0;
            self.progress.pass_start_time = now;
            self.progress.pass_rays = 0;
            self.progress.pass_samples = 0;
        }
    }

    /// Notes that a frame has begun at time `now`.
    pub fn begin_frame(&mut self, now: u64)
        ensures
            *final(self) == old(self).at_frame(now),
    {
        self.last_time = now;
        self.frame = self.frame.wrapping_add(1);
    }

    /// The work of a frame; none for a picture without pixels.
    pub fn plan_frame(&self) -> (r: Option<FrameRun>)
        requires
            self.wf(),
        ensures
            r == self.plan(),
            r matches Some(run) ==> run.total == self.total() && self.progress.expects(
                run,
                FrameEvent::Started,
            ),
    {
        if self.render_w == 0 || self.render_h == 0 {
            proof {
                assert(self.render_w == 0 || self.render_h == 0 ==> self.render_w * self.render_h
                    == 0) by (nonlinear_arith);
            }
            return None;
        }
        proof {
            assert(self.render_w > 0 && self.render_h > 0 ==> self.render_w * self.render_h > 0)
                by (nonlinear_arith);
        }
        Some(FrameRun::new((self.render_w * self.render_h) as usize))
    }

    /// Moves a frame on after any event but a traced pixel.
    pub fn frame(&mut self, run: &mut FrameRun, event: FrameEvent) -> (action: FrameAction)
        requires
            old(self).buffers_wf(),
            old(run).total == old(self).total(),
            !(event is PixelTraced),
            old(self).progress.expects(*old(run), event),
        ensures
            (FrameStep { progress: final(self).progress, run: *final(run), action })
                == old(self).progress.next(*old(run), event),
            *final(self) == (State { progress: final(self).progress, ..*old(self) }),
            final(self).awaits(*final(run), action),
            action is Finish ==> final(self).wf(),
    {
        proof {
            if event is PassTimed {
                assert(self.sample_counts@[0] == self.progress.iteration + 1);
            }
        }
        self.progress.step(run, event)
    }

    /// What is needed to trace the next pixel.
    pub fn begin_pixel(&self, run: &FrameRun) -> (r: PixelJob)
        requires
            self.awaits(*run, FrameAction::TracePixel),
            self.progress.iteration < u32::MAX,
        ensures
            self.is_job(r),
            r.x < self.render_w,
            r.y < self.render_h,
            r.path.wf(),
    {
        let i: usize = self.progress.next_pixel;
        let idx: u32 = i as u32;
        proof {
            reveal_with_fuel(state_after, 5);
            let w = self.render_w as int;
            let h = self.render_h as int;
            assert(w > 0) by (nonlinear_arith)
                requires
                    0 <= i < w * h,
                    w >= 0,
            ;
            assert(i as int / w < h) by (nonlinear_arith)
                requires
                    0 <= i < w * h,
                    w > 0,
            ;
        }
        let mut rng: Rng = Rng(self.rng_states[i]);
        let x: u32 = idx % self.render_w;
        let y: u32 = idx / self.render_w;
        let jitter: (u32, u32) = rng.next_pair();
        let lens: (u32, u32) = rng.next_pair();
        PixelJob {
            x,
            y,
            jitter,
            lens,
            path: PathTracer::begin(rng.0),
            samples: self.sample_counts[i] + 1,
            mean: V3::new(self.accum[i * 3], self.accum[i * 3 + 1], self.accum[i * 3 + 2]),
        }
    }

    /// Takes in the traced pixel: the end of its path, the new mean of its
    /// samples and its color on the screen.
    pub fn trace_pixel(
        &mut self,
        run: &mut FrameRun,
        path: &PathTracer,
        mean: V3,
        color: (u8, u8, u8),
    ) -> (action: FrameAction)
        requires
            old(self).awaits(*old(run), FrameAction::TracePixel),
            old(self).progress.iteration < u32::MAX,
            old(self).progress.has_room(),
            path.wf(),
            path.phase is Finished,
        ensures
            old(self).is_stored(path.rng, mean, color, *final(self)),
            (FrameStep { progress: final(self).progress, run: *final(run), action })
                == old(self).progress.next(
                *old(run),
                FrameEvent::PixelTraced { rays: path.rays },
            ),
            *final(self) == (State {
                accum: final(self).accum,
                pixels: final(self).pixels,
                sample_counts: final(self).sample_counts,
                rng_states: final(self).rng_states,
                progress: final(self).progress,
                ..*old(self)
            }),
            final(self).awaits(*final(run), action),
            action is Finish ==> final(self).wf(),
    {
        let i: usize = self.progress.next_pixel;
        let samples: u32 = self.sample_counts[i] + 1;
        self.rng_states.set(i, path.rng);
        self.sample_counts.set(i, samples);
        self.accum.set(i * 3, mean.x);
        self.accum.set(i * 3 + 1, mean.y);
        self.accum.set(i * 3 + 2, mean.z);
        self.pixels.set(i * 4, color.0);
        self.pixels.set(i * 4 + 1, color.1);
        self.pixels.set(i * 4 + 2, color.2);
        self.pixels.set(i * 4 + 3, 255);
        self.progress.step(run, FrameEvent::PixelTraced { rays: path.rays })
    }

    /// Closes the statistics window if it has lasted long enough: `elapsed` is
    /// its length at time `now`, `rates` what its counters amount to per second.
    pub fn roll_stats(&mut self, now: u64, elapsed: u64, rates: Rates)
        ensures
            *final(self) == old(self).rolled(now, elapsed, rates),
    {
        if bits64::le(STATS_WINDOW_MS, elapsed) {
            self.passes_per_sec = rates.passes;
            self.samples_per_sec = rates.samples;
            self.rays_per_sec = rates.rays;
            self.stats_window_start = now;
            self.progress.window_passes = 0;
            self.progress.window_samples = 0;
            self.progress.window_rays = 0;
        }
    }

    /// The mouse button goes down at a point.
    pub fn press(&mut self, x: i32, y: i32)
        ensures
            *final(self) == old(self).pressed(x, y),
    {
        self.mouse_down = true;
        self.last_mouse = (x, y);
    }

    /// The mouse button comes up.
    pub fn release(&mut self)
        ensures
            *final(self) == old(self).released(),
    {
        self.mouse_down = false;
    }

    /// How far the mouse was dragged to a point; nothing if its button is up.
    pub fn drag_distance(&self, x: i32, y: i32) -> (r: Option<(i64, i64)>)
        ensures
            r == dragged_by(self.mouse_down, self.last_mouse, (x, y)),
    {
        if self.mouse_down {
            Some((x as i64 - self.last_mouse.0 as i64, y as i64 - self.last_mouse.1 as i64))
        } else {
            None
        }
    }

    /// The mouse was dragged to a point, which turns the camera: the picture is
    /// cleared and every pixel seeded anew. Nothing happens if the mouse button
    /// is up.
    pub fn drag(&mut self, x: i32, y: i32, yaw: u32, pitch: u32, now: u64)
        requires
            old(self).wf(),
        ensures
            final(self).wf(),
            old(self).is_dragged(x, y, yaw, pitch, now, *final(self)),
    {
        if self.mouse_down {
            self.cam_yaw = yaw;
            self.cam_pitch = bits32::clamp(pitch, LOWEST_PITCH, HIGHEST_PITCH);
            self.last_mouse = (x, y);
            self.reset_accumulation(now);
            let salt: u32 = self.frame.wrapping_mul(DRAG_SALT).wrapping_add(DRAG_SALT_OFFSET);
            self.reseed_rng_states(salt);
        }
    }
}

/// After reseeding no two pixels draw the same numbers from the start.
pub proof fn reseeded_pixels_differ(n: nat, salt: u32, i: int, j: int)
    requires
        n <= u32::MAX,
        0 <= i < n,
        0 <= j < n,
        i != j,
    ensures
        seeds(n, salt)[i] != seeds(n, salt)[j],
{
    seeds_are_distinct(i as u32, j as u32, salt);
}

/// Between passes every pixel has been sampled the same number of times: once
/// per finished pass.
pub proof fn picture_is_sampled_evenly(state: State, i: int)
    requires
        state.wf(),
        state.progress.next_pixel == 0,
        0 <= i < state.total(),
    ensures
        state.sample_counts@[i] == state.progress.iteration,
{
}

/// A point and how far it was dragged to lead to each other; a mouse whose button
/// is up is not dragged.
pub proof fn drags_lead_to_the_point(down: bool, last: (i32, i32), to: (i32, i32))
    ensures
        !down ==> dragged_by(down, last, to) is None,
        down ==> (dragged_by(down, last, to) matches Some((dx, dy)) && last.0 + dx == to.0 && last.1
            + dy == to.1),
{
}

/// A statistics window is over after a second.
pub proof fn windows_last_a_second(elapsed: u64)
    ensures
        window_is_over(elapsed) <==> at_most(0x408f_4000_0000_0000, elapsed),
{
}

/// Every pixel is seeded with its own number.
pub proof fn seeds_belong_to_pixels(n: nat, salt: u32, i: int)
    requires
        n <= u32::MAX,
        0 <= i < n,
    ensures
        seeds(n, salt).len() == n,
        seeds(n, salt)[i] == seed(i as u32, salt),
{
}

/// A new renderer has an empty picture of the size it was made for, seeded with
/// the first salt; it looks from the front, slightly from above (a pitch of
/// 0.15), with the button up and nothing counted.
pub proof fn new_pictures_are_empty(state: State, w: u32, h: u32, now: u64, i: int)
    requires
        state.is_fresh(w, h, now),
        size_fits(w, h),
    ensures
        state.render_w == w && state.render_h == h,
        state.accum@.len() == 3 * (w * h) && state.pixels@.len() == 4 * (w * h),
        state.sample_counts@.len() == w * h && state.rng_states@.len() == w * h,
        0 <= i < 3 * (w * h) ==> state.accum@[i] == 0,
        0 <= i < 4 * (w * h) ==> state.pixels@[i] == 0,
        0 <= i < w * h ==> state.sample_counts@[i] == 0 && state.rng_states@[i] == seed(
            i as u32,
            0xA53B_1F27,
        ),
        state.cam_yaw == 0 && state.cam_pitch == 0x3e19_999a,
        state.passes_per_sec == 0 && state.samples_per_sec == 0 && state.rays_per_sec == 0,
        state.last_mouse == (0i32, 0i32),
        state.frame == 0 && !state.mouse_down,
        state.last_time == now && state.stats_window_start == now && state.progress
            == Progress::fresh(now),
{
}

/// A cleared picture is black and transparent everywhere and has no samples. Its
/// size, its random numbers, the camera and the mouse stay.
pub proof fn cleared_pictures_are_empty(before: State, now: u64, after: State, i: int)
    requires
        before.is_cleared(now, after),
    ensures
        0 <= i < before.accum@.len() ==> after.accum@[i] == 0,
        0 <= i < before.pixels@.len() ==> after.pixels@[i] == 0,
        0 <= i < before.sample_counts@.len() ==> after.sample_counts@[i] == 0,
        after.accum@.len() == before.accum@.len() && after.pixels@.len() == before.pixels@.len(),
        after.sample_counts@.len() == before.sample_counts@.len(),
        after.rng_states == before.rng_states,
        after.render_w == before.render_w && after.render_h == before.render_h,
        after.cam_yaw == before.cam_yaw && after.cam_pitch == before.cam_pitch,
        after.mouse_down == before.mouse_down && after.last_mouse == before.last_mouse,
        after.frame == before.frame && after.last_time == before.last_time,
        after.progress == before.progress.cleared(now),
        after.stats_window_start == before.stats_window_start && after.rays_per_sec
            == before.rays_per_sec,
        after.passes_per_sec == before.passes_per_sec && after.samples_per_sec
            == before.samples_per_sec,
{
}

/// A picture of another size is empty, and each of its pixels is seeded with a
/// salt of the frame number times 977. A picture of the same size stays.
pub proof fn resized_pictures_are_empty(
    before: State,
    w: u32,
    h: u32,
    now: u64,
    after: State,
    i: int,
)
    requires
        before.is_resized(w, h, now, after),
        size_fits(w, h),
    ensures
        after.render_w == w && after.render_h == h,
        w == before.render_w && h == before.render_h ==> after == before,
        w != before.render_w || h != before.render_h ==> {
            &&& after.accum@.len() == 3 * (w * h) && after.pixels@.len() == 4 * (w * h)
            &&& after.sample_counts@.len() == w * h && after.rng_states@.len() == w * h
            &&& 0 <= i < 3 * (w * h) ==> after.accum@[i] == 0
            &&& 0 <= i < 4 * (w * h) ==> after.pixels@[i] == 0
            &&& 0 <= i < w * h ==> after.sample_counts@[i] == 0 && after.rng_states@[i] == seed(
                i as u32,
                ((before.frame * 977) % 0x1_0000_0000) as u32,
            )
            &&& after.progress == before.progress.restarted(now)
        },
        after.cam_yaw == before.cam_yaw && after.cam_pitch == before.cam_pitch,
        after.mouse_down == before.mouse_down && after.last_mouse == before.last_mouse,
        after.frame == before.frame && after.last_time == before.last_time,
        after.stats_window_start == before.stats_window_start && after.rays_per_sec
            == before.rays_per_sec,
        after.passes_per_sec == before.passes_per_sec && after.samples_per_sec
            == before.samples_per_sec,
{
}

/// The next pixel is found in the picture row by row from the top. It goes on in
/// its own stream of numbers: two within the pixel, two on the lens, and the path
/// after them. One more sample is added to those that it has, and to their mean.
pub proof fn jobs_are_for_the_next_pixel(state: State, job: PixelJob)
    requires
        state.is_job(job),
        state.buffers_wf(),
        state.progress.next_pixel < state.total(),
    ensures
        ({
            let i = state.progress.next_pixel as int;
            let s0 = state.rng_states@[i];
            let s1 = advanced(s0);
            let s2 = advanced(s1);
            let s3 = advanced(s2);
            &&& job.y * state.render_w + job.x == i
            &&& job.x < state.render_w && job.y < state.render_h
            &&& job.jitter == (output(s0), output(s1))
            &&& job.lens == (output(s2), output(s3))
            &&& job.path.rng == advanced(s3)
            &&& job.path.bounce == 0 && job.path.rays == 1 && job.path.specular
            &&& job.samples == state.sample_counts@[i] + 1
            &&& job.mean.x == state.accum@[3 * i]
            &&& job.mean.y == state.accum@[3 * i + 1]
            &&& job.mean.z == state.accum@[3 * i + 2]
        }),
{
    reveal_with_fuel(state_after, 5);
    let i = state.progress.next_pixel as int;
    let w = state.render_w as int;
    let h = state.render_h as int;
    assert(w > 0) by (nonlinear_arith)
        requires
            0 <= i < w * h,
            w >= 0,
    ;
    lemma_fundamental_div_mod(i, w);
    assert(i / w < h) by (nonlinear_arith)
        requires
            0 <= i < w * h,
            w > 0,
    ;
    assert(w * (i / w) == (i / w) * w) by (nonlinear_arith);
}

/// A traced pixel is stored as red, green, blue and opaque, with its new mean, one
/// more sample and the end of its stream. No other pixel is touched.
pub proof fn pixels_are_stored_by_themselves(
    before: State,
    rng: u32,
    mean: V3,
    color: (u8, u8, u8),
    after: State,
    j: int,
)
    requires
        before.is_stored(rng, mean, color, after),
        before.buffers_wf(),
        before.progress.next_pixel < before.total(),
        before.sample_counts@[before.progress.next_pixel as int] < u32::MAX,
        0 <= j < before.total(),
    ensures
        j == before.progress.next_pixel ==> {
            &&& after.pixels@[4 * j] == color.0
            &&& after.pixels@[4 * j + 1] == color.1
            &&& after.pixels@[4 * j + 2] == color.2
            &&& after.pixels@[4 * j + 3] == 255
            &&& after.accum@[3 * j] == mean.x
            &&& after.accum@[3 * j + 1] == mean.y
            &&& after.accum@[3 * j + 2] == mean.z
            &&& after.sample_counts@[j] == before.sample_counts@[j] + 1
            &&& after.rng_states@[j] == rng
        },
        j != before.progress.next_pixel ==> {
            &&& after.pixels@[4 * j] == before.pixels@[4 * j]
            &&& after.pixels@[4 * j + 1] == before.pixels@[4 * j + 1]
            &&& after.pixels@[4 * j + 2] == before.pixels@[4 * j + 2]
            &&& after.pixels@[4 * j + 3] == before.pixels@[4 * j + 3]
            &&& after.accum@[3 * j] == before.accum@[3 * j]
            &&& after.accum@[3 * j + 1] == before.accum@[3 * j + 1]
            &&& after.accum@[3 * j + 2] == before.accum@[3 * j + 2]
            &&& after.sample_counts@[j] == before.sample_counts@[j]
            &&& after.rng_states@[j] == before.rng_states@[j]
        },
{
}

/// A frame is numbered and timed, and changes nothing else by beginning.
pub proof fn frames_are_numbered(state: State, now: u64)
    ensures
        state.at_frame(now).frame == (state.frame + 1) % 0x1_0000_0000,
        state.at_frame(now).last_time == now,
        (State { frame: state.frame, last_time: state.last_time, ..state.at_frame(now) }) == state,
{
}

/// A statistics window that is over shows the rates of its passes, samples and
/// rays, and starts anew with nothing counted; one that is not over stays as it
/// is.
pub proof fn windows_start_anew(state: State, now: u64, elapsed: u64, rates: Rates)
    ensures
        !window_is_over(elapsed) ==> state.rolled(now, elapsed, rates) == state,
        window_is_over(elapsed) ==> {
            let after = state.rolled(now, elapsed, rates);
            &&& after.passes_per_sec == rates.passes
            &&& after.samples_per_sec == rates.samples
            &&& after.rays_per_sec == rates.rays
            &&& after.stats_window_start == now
            &&& after.progress.window_passes == 0 && after.progress.window_samples == 0
                && after.progress.window_rays == 0
            &&& after.progress.next_pixel == state.progress.next_pixel && after.progress.iteration
                == state.progress.iteration
            &&& after.progress.pass_rays == state.progress.pass_rays && after.progress.pass_samples
                == state.progress.pass_samples
            &&& after.progress.last_pass_rays == state.progress.last_pass_rays
            &&& (State {
                passes_per_sec: state.passes_per_sec,
                samples_per_sec: state.samples_per_sec,
                rays_per_sec: state.rays_per_sec,
                stats_window_start: state.stats_window_start,
                progress: state.progress,
                ..after
            }) == state
        },
{
}

/// Dragging with the button down turns the camera to the given yaw and to the
/// given pitch, up to 1.2 either way, remembers the point, clears the picture and
/// seeds each pixel with a salt of the frame number times 3907, and eleven. With
/// the button up nothing happens.
pub proof fn dragging_turns_the_camera(
    before: State,
    x: i32,
    y: i32,
    yaw: u32,
    pitch: u32,
    now: u64,
    after: State,
    i: int,
)
    requires
        before.is_dragged(x, y, yaw, pitch, now, after),
        before.buffers_wf(),
    ensures
        !before.mouse_down ==> after == before,
        before.mouse_down ==> {
            &&& after.cam_yaw == yaw
            &&& bits32::at_most(0xbf99_999a, pitch) && bits32::at_most(pitch, 0x3f99_999a)
                ==> after.cam_pitch == pitch
            &&& bits32::less(pitch, 0xbf99_999a) ==> after.cam_pitch == 0xbf99_999a
            &&& bits32::less(0x3f99_999a, pitch) ==> after.cam_pitch == 0x3f99_999a
            &&& after.last_mouse == (x, y) && after.mouse_down
            &&& 0 <= i < 3 * before.total() ==> after.accum@[i] == 0
            &&& 0 <= i < 4 * before.total() ==> after.pixels@[i] == 0
            &&& 0 <= i < before.total() ==> after.sample_counts@[i] == 0 && after.rng_states@[i]
                == seed(i as u32, ((before.frame * 3907 + 11) % 0x1_0000_0000) as u32)
            &&& after.progress == before.progress.cleared(now)
            &&& after.render_w == before.render_w && after.render_h == before.render_h
            &&& after.frame == before.frame && after.last_time == before.last_time
            &&& after.stats_window_start == before.stats_window_start
        },
{
    let p: int = before.frame * 3907;
    lemma_add_mod_noop_right(11, p, 0x1_0000_0000);
}

/// Pressing remembers the point, and releasing changes nothing but that the
/// button is up.
pub proof fn buttons_go_down_and_up(state: State, x: i32, y: i32)
    ensures
        state.pressed(x, y).mouse_down && state.pressed(x, y).last_mouse == (x, y),
        (State {
            mouse_down: state.mouse_down,
            last_mouse: state.last_mouse,
            ..state.pressed(x, y)
        }) == state,
        !state.released().mouse_down,
        (State { mouse_down: state.mouse_down, ..state.released() }) == state,
{
}

/// A picture without width or height has no work; any other starts a frame over
/// all of its pixels, none of them traced yet.
pub proof fn frames_are_planned(state: State)
    requires
        size_fits(state.render_w, state.render_h),
    ensures
        state.plan() is None <==> state.render_w == 0 || state.render_h == 0,
        state.plan() matches Some(run) ==> run.total == state.render_w * state.render_h
            && run.traced == 0 && run.left == 0,
{
    let (w, h) = (state.render_w as int, state.render_h as int);
    assert(w * h == 0 <==> w == 0 || h == 0) by (nonlinear_arith)
        requires
            w >= 0,
            h >= 0,
    ;
}

} // verus!
