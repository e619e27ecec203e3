//! How far the software renderer has come, and how it spreads its work over
//! frames.
//!
//! A frame is a state machine: it hands out one pixel after another, asks for
//! the clock when it has done its minimum, and counts rays, samples and passes.

use vstd::arithmetic::div_mod::lemma_fundamental_div_mod_converse;
use vstd::prelude::*;
use crate::bits64::{self, less};
use crate::ray_tracer::path::MAX_BOUNCE;

verus! {

/// The pixels that are traced between two looks at the clock.
pub const PIXEL_BATCH: usize = 256;

/// The time in milliseconds (12) that a frame may take beyond its minimum.
pub const FRAME_BUDGET_MS: u64 = 0x4028_0000_0000_0000;

/// The least minimum of pixels in a frame.
pub const LEAST_MIN_PIXELS: usize = 1024;

/// The largest minimum of pixels in a frame.
pub const LARGEST_MIN_PIXELS: usize = 16384;

/// The minimum is this part of all pixels, within its limits.
pub const MIN_PIXELS_DIVISOR: usize = 192;

/// What the renderer has done so far. Times are double-precision patterns.
#[derive(Clone, Copy, PartialEq, Eq, Structural, Debug)]
pub struct Progress {
    /// Passes over all pixels since the picture was last cleared.
    pub iteration: u32,
    /// The pixel whose turn it is.
    pub next_pixel: usize,
    pub pass_start_time: u64,
    pub pass_rays: u64,
    pub pass_samples: u64,
    pub last_pass_ms: u64,
    pub last_pass_rays: u64,
    pub last_pass_samples: u64,
    pub window_passes: u32,
    pub window_samples: u64,
    pub window_rays: u64,
}

/// The work of the frame at hand.
#[derive(Clone, Copy, PartialEq, Eq, Structural, Debug)]
pub struct FrameRun {
    /// The pixels of the picture.
    pub total: usize,
    /// The pixels that are traced whatever the clock says.
    pub min_pixels: usize,
    /// The pixels of finished batches.
    pub traced: usize,
    /// The pixels of the batch at hand.
    pub batch: usize,
    /// Those that are still to be traced.
    pub left: usize,
    /// The rays traced in the batch at hand.
    pub rays: u64,
}

/// What the caller reports to a frame.
#[derive(Clone, Copy, PartialEq, Eq, Structural, Debug)]
pub enum FrameEvent {
    /// The frame starts.
    Started,
    /// The time in milliseconds since the start of the frame.
    ClockRead { elapsed: u64 },
    /// A pixel was traced with so many rays.
    PixelTraced { rays: u32 },
    /// The time at the end of a pass, and the time that the pass took.
    PassTimed { now: u64, took: u64 },
}

/// What the caller is to do next in a frame.
#[derive(Clone, Copy, PartialEq, Eq, Structural, Debug)]
pub enum FrameAction {
    /// Read the clock.
    ReadClock,
    /// Trace the pixel whose turn it is.
    TracePixel,
    /// Take the time of the pass that has ended.
    TimePass,
    /// The frame has traced what it can.
    Finish,
}

/// The pixels that a frame traces whatever the clock says.
pub open spec fn min_pixels_of(total: int) -> int {
    if total / MIN_PIXELS_DIVISOR as int <= LEAST_MIN_PIXELS {
        LEAST_MIN_PIXELS as int
    } else if total / MIN_PIXELS_DIVISOR as int <= LARGEST_MIN_PIXELS {
        total / MIN_PIXELS_DIVISOR as int
    } else {
        LARGEST_MIN_PIXELS as int
    }
}

impl FrameRun {
    /// A frame that has not traced anything yet.
    pub open spec fn fresh(total: usize) -> FrameRun {
        FrameRun {
            total,
            min_pixels: min_pixels_of(total as int) as usize,
            traced: 0,
            batch: 0,
            left: 0,
            rays: 0,
        }
    }

    /// A frame that has not traced anything yet.
    pub fn new(total: usize) -> (r: FrameRun)
        ensures
            r == FrameRun::fresh(total),
            r.min_pixels == min_pixels_of(total as int),
    {
        let share: usize = total / MIN_PIXELS_DIVISOR;
        let min_pixels: usize = if share <= LEAST_MIN_PIXELS {
            LEAST_MIN_PIXELS
        } else if share <= LARGEST_MIN_PIXELS {
            share
        } else {
            LARGEST_MIN_PIXELS
        };
        FrameRun { total, min_pixels, traced: 0, batch: 0, left: 0, rays: 0 }
    }
}

/// The state of a frame after an event, and what is to be done.
pub struct FrameStep {
    pub progress: Progress,
    pub run: FrameRun,
    pub action: FrameAction,
}

impl Progress {
    /// Nothing done yet, at time `now`.
    pub open spec fn fresh(now: u64) -> Progress {
        Progress {
            iteration: 0,
            next_pixel: 0,
            pass_start_time: now,
            pass_rays: 0,
            pass_samples: 0,
            last_pass_ms: bits64::ZERO,
            last_pass_rays: 0,
            last_pass_samples: 0,
            window_passes: 0,
            window_samples: 0,
            window_rays: 0,
        }
    }

    /// The picture starts anew; what the last pass was like is forgotten.
    pub open spec fn cleared(self, now: u64) -> Progress {
        Progress {
            iteration: 0,
            next_pixel: 0,
            pass_start_time: now,
            pass_rays: 0,
            pass_samples: 0,
            last_pass_ms: bits64::ZERO,
            last_pass_rays: 0,
            last_pass_samples: 0,
            ..self
        }
    }

    /// The picture starts anew in another size; what the last pass was like is
    /// still shown.
    pub open spec fn restarted(self, now: u64) -> Progress {
        Progress {
            iteration: 0,
            next_pixel: 0,
            pass_start_time: now,
            pass_rays: 0,
            pass_samples: 0,
            ..self
        }
    }

    /// Where the pass stands: each pixel before the next one was sampled once,
    /// with one to ten rays; `open` of those samples, with `rays` rays, belong
    /// to a batch that is not counted yet.
    pub open spec fn on_course(self, total: int, open: int, rays: int) -> bool {
        &&& self.next_pixel <= total
        &&& self.pass_samples == self.next_pixel
        &&& self.next_pixel <= self.pass_rays + rays <= MAX_BOUNCE * self.next_pixel
        &&& 0 <= open <= self.next_pixel
        &&& open <= rays <= MAX_BOUNCE * open
    }

    /// Whether the counters of the statistics window can take another batch.
    pub open spec fn has_room(self) -> bool {
        &&& self.window_samples + PIXEL_BATCH <= u64::MAX
        &&& self.window_rays + MAX_BOUNCE * PIXEL_BATCH <= u64::MAX
    }

    /// Opens the next batch.
    pub open spec fn batch_opened(self, run: FrameRun) -> FrameStep {
        let remain = run.total - self.next_pixel;
        let batch = if remain <= PIXEL_BATCH {
            remain as usize
        } else {
            PIXEL_BATCH
        };
        FrameStep {
            progress: self,
            run: FrameRun { batch, left: batch, rays: 0, ..run },
            action: FrameAction::TracePixel,
        }
    }

    /// The head of the frame's loop.
    pub open spec fn at_head(self, run: FrameRun) -> FrameStep {
        if run.traced < run.min_pixels {
            self.batch_opened(run)
        } else {
            FrameStep { progress: self, run, action: FrameAction::ReadClock }
        }
    }

    /// The end of the frame's loop: a frame never traces the picture twice.
    pub open spec fn at_tail(self, run: FrameRun) -> FrameStep {
        if run.traced >= run.total {
            FrameStep { progress: self, run, action: FrameAction::Finish }
        } else {
            self.at_head(run)
        }
    }

    /// Counts a batch in.
    pub open spec fn batch_closed(self, run: FrameRun) -> FrameStep {
        let progress = Progress {
            pass_rays: (self.pass_rays + run.rays) as u64,
            window_samples: (self.window_samples + run.batch) as u64,
            window_rays: (self.window_rays + run.rays) as u64,
            ..self
        };
        let run = FrameRun { traced: (run.traced + run.batch) as usize, rays: 0, ..run };
        if self.next_pixel >= run.total {
            FrameStep { progress, run, action: FrameAction::TimePass }
        } else {
            progress.at_tail(run)
        }
    }

    /// Counts a pixel in.
    pub open spec fn pixel_done(self, run: FrameRun, rays: u32) -> FrameStep {
        let progress = Progress {
            next_pixel: (self.next_pixel + 1) as usize,
            pass_samples: (self.pass_samples + 1) as u64,
            ..self
        };
        let run = FrameRun {
            left: (run.left - 1) as usize,
            rays: (run.rays + rays) as u64,
            ..run
        };
        if run.left > 0 {
            FrameStep { progress, run, action: FrameAction::TracePixel }
        } else {
            progress.batch_closed(run)
        }
    }

    /// The progress after a pass over all pixels.
    pub open spec fn pass_done(self, now: u64, took: u64) -> Progress {
        Progress {
            iteration: self.iteration.wrapping_add(1),
            next_pixel: 0,
            pass_start_time: now,
            pass_rays: 0,
            pass_samples: 0,
            last_pass_ms: took,
            last_pass_rays: self.pass_rays,
            last_pass_samples: self.pass_samples,
            window_passes: self.window_passes.wrapping_add(1),
            ..self
        }
    }

    /// The frame after an event.
    pub open spec fn next(self, run: FrameRun, event: FrameEvent) -> FrameStep {
        match event {
            FrameEvent::Started => self.at_head(run),
            FrameEvent::ClockRead { elapsed } => if less(elapsed, FRAME_BUDGET_MS) {
                self.batch_opened(run)
            } else {
                FrameStep { progress: self, run, action: FrameAction::Finish }
            },
            FrameEvent::PixelTraced { rays } => self.pixel_done(run, rays),
            FrameEvent::PassTimed { now, took } => self.pass_done(now, took).at_tail(run),
        }
    }

    /// How a frame stands that waits for the outcome of `action`.
    pub open spec fn awaits(self, run: FrameRun, action: FrameAction) -> bool {
        &&& 0 < run.total <= u32::MAX
        &&& 4 * run.total <= usize::MAX
        &&& run.min_pixels == min_pixels_of(run.total as int)
        &&& match action {
            FrameAction::TracePixel => {
                &&& 0 < run.left <= run.batch <= PIXEL_BATCH
                &&& run.left <= run.total - self.next_pixel
                &&& run.traced < run.total
                &&& self.on_course(run.total as int, run.batch - run.left, run.rays as int)
            },
            FrameAction::TimePass => {
                &&& self.next_pixel == run.total
                &&& run.traced < run.total + PIXEL_BATCH
                &&& self.on_course(run.total as int, 0, 0)
            },
            FrameAction::ReadClock => {
                &&& self.next_pixel < run.total
                &&& run.min_pixels <= run.traced < run.total
                &&& self.on_course(run.total as int, 0, 0)
            },
            FrameAction::Finish => {
                &&& self.next_pixel < run.total
                &&& run.min_pixels <= run.traced || run.total <= run.traced
                &&& run.traced < run.total + PIXEL_BATCH
                &&& self.on_course(run.total as int, 0, 0)
            },
        }
    }

    /// Whether an event is what a frame in this state waits for.
    pub open spec fn expects(self, run: FrameRun, event: FrameEvent) -> bool {
        match event {
            FrameEvent::Started => {
                &&& run == FrameRun::fresh(run.total)
                &&& 0 < run.total <= u32::MAX
                &&& 4 * run.total <= usize::MAX
                &&& self.next_pixel < run.total
                &&& self.on_course(run.total as int, 0, 0)
            },
            FrameEvent::ClockRead { .. } => self.awaits(run, FrameAction::ReadClock),
            FrameEvent::PixelTraced { rays } => {
                &&& self.awaits(run, FrameAction::TracePixel)
                &&& 1 <= rays <= MAX_BOUNCE
                &&& self.has_room()
            },
            FrameEvent::PassTimed { .. } => self.awaits(run, FrameAction::TimePass),
        }
    }

    /// How far a frame that waits for the outcome of `action` is from its end.
    pub open spec fn steps_left(run: FrameRun, action: FrameAction) -> int {
        let pixels = if run.traced < run.total {
            (run.total - run.traced) * 1024
        } else {
            0
        };
        match action {
            FrameAction::TracePixel => pixels + run.left,
            FrameAction::ReadClock => pixels + 512,
            FrameAction::TimePass => pixels + 768,
            FrameAction::Finish => 0,
        }
    }

    /// Moves a frame on after an event.
    pub fn step(&mut self, run: &mut FrameRun, event: FrameEvent) -> (action: FrameAction)
        requires
            old(self).expects(*old(run), event),
        ensures
            (FrameStep { progress: *final(self), run: *final(run), action }) == old(self).next(
                *old(run),
                event,
            ),
            final(self).awaits(*final(run), action),
    {
        match event {
            FrameEvent::Started => self.head(run),
            FrameEvent::ClockRead { elapsed } => if bits64::lt(elapsed, FRAME_BUDGET_MS) {
                self.open_batch(run)
            } else {
                FrameAction::Finish
            },
            FrameEvent::PixelTraced { rays } => {
                self.next_pixel = self.next_pixel + 1;
                self.pass_samples = self.pass_samples + 1;
                run.left = run.left - 1;
                run.rays = run.rays + rays as u64;
                if run.left > 0 {
                    FrameAction::TracePixel
                } else {
                    self.close_batch(run)
                }
            },
            FrameEvent::PassTimed { now, took } => {
                self.next_pixel = 0;
                self.iteration = self.iteration.wrapping_add(1);
                self.last_pass_ms = took;
                self.last_pass_rays = self.pass_rays;
                self.last_pass_samples = self.pass_samples;
                self.pass_start_time = now;
                self.pass_rays = 0;
                self.pass_samples = 0;
                self.window_passes = self.window_passes.wrapping_add(1);
                self.tail(run)
            },
        }
    }

    /// Opens the next batch.
    fn open_batch(&self, run: &mut FrameRun) -> (action: FrameAction)
        requires
            self.next_pixel < old(run).total,
        ensures
            (FrameStep { progress: *self, run: *final(run), action }) == self.batch_opened(*old(run)),
    {
        let remain: usize = run.total - self.next_pixel;
        let batch: usize = if remain <= PIXEL_BATCH {
            remain
        } else {
            PIXEL_BATCH
        };
        run.batch = batch;
        run.left = batch;
        run.rays = 0;
        FrameAction::TracePixel
    }

    /// The head of the frame's loop.
    fn head(&self, run: &mut FrameRun) -> (action: FrameAction)
        requires
            self.next_pixel < old(run).total,
        ensures
            (FrameStep { progress: *self, run: *final(run), action }) == self.at_head(*old(run)),
    {
        if run.traced < run.min_pixels {
            self.open_batch(run)
        } else {
            FrameAction::ReadClock
        }
    }

    /// The end of the frame's loop.
    fn tail(&self, run: &mut FrameRun) -> (action: FrameAction)
        requires
            self.next_pixel < old(run).total,
        ensures
            (FrameStep { progress: *self, run: *final(run), action }) == self.at_tail(*old(run)),
    {
        if run.traced >= run.total {
            FrameAction::Finish
        } else {
            self.head(run)
        }
    }

    /// Counts a batch in.
    fn close_batch(&mut self, run: &mut FrameRun) -> (action: FrameAction)
        requires
            old(self).pass_rays + old(run).rays <= u64::MAX,
            old(self).window_samples + old(run).batch <= u64::MAX,
            old(self).window_rays + old(run).rays <= u64::MAX,
            old(run).traced + old(run).batch <= usize::MAX,
        ensures
            (FrameStep { progress: *final(self), run: *final(run), action })
                == old(self).batch_closed(*old(run)),
    {
        self.pass_rays = self.pass_rays + run.rays;
        self.window_samples = self.window_samples + run.batch as u64;
        self.window_rays = self.window_rays + run.rays;
        run.traced = run.traced + run.batch;
        run.rays = 0;
        if self.next_pixel >= run.total {
            FrameAction::TimePass
        } else {
            self.tail(run)
        }
    }
}

/// A frame ends: every event brings its end nearer, whatever the clock says.
pub proof fn frame_ends(progress: Progress, run: FrameRun, action: FrameAction, event: FrameEvent)
    requires
        progress.awaits(run, action),
        progress.expects(run, event),
        answers(action, event),
    ensures
        0 <= Progress::steps_left(
            progress.next(run, event).run,
            progress.next(run, event).action,
        ) < Progress::steps_left(run, action),
{
}

/// A pass samples every pixel once, and with one to ten rays each.
pub proof fn pass_covers_the_picture(progress: Progress, run: FrameRun, now: u64, took: u64)
    requires
        progress.awaits(run, FrameAction::TimePass),
    ensures
        progress.pass_done(now, took).last_pass_samples == run.total,
        run.total <= progress.pass_done(now, took).last_pass_rays <= MAX_BOUNCE * run.total,
{
}

/// A finished frame has traced its minimum or the whole picture, and hardly more
/// than the whole picture.
pub proof fn frame_does_its_minimum(progress: Progress, run: FrameRun)
    requires
        progress.awaits(run, FrameAction::Finish),
    ensures
        run.traced >= min_pixels_of(run.total as int) || run.traced >= run.total,
        run.traced < run.total + PIXEL_BATCH,
        LEAST_MIN_PIXELS <= min_pixels_of(run.total as int) <= LARGEST_MIN_PIXELS,
{
}

/// Whether an event is the outcome of an action.
pub open spec fn answers(action: FrameAction, event: FrameEvent) -> bool {
    match action {
        FrameAction::ReadClock => event is ClockRead,
        FrameAction::TracePixel => event is PixelTraced,
        FrameAction::TimePass => event is PassTimed,
        FrameAction::Finish => false,
    }
}

/// Whether an event leads from one step of a frame to another.
#[verifier::opaque]
pub open spec fn leads(before: FrameStep, event: FrameEvent, after: FrameStep) -> bool {
    &&& answers(before.action, event)
    &&& before.progress.expects(before.run, event)
    &&& after == before.progress.next(before.run, event)
}

/// Whether a frame that has not traced anything yet goes through these steps:
/// the first one is its start, and each of these events leads to the next.
pub open spec fn played(
    first: Progress,
    total: usize,
    steps: Seq<FrameStep>,
    events: Seq<FrameEvent>,
) -> bool {
    &&& steps.len() == events.len() + 1
    &&& first.expects(FrameRun::fresh(total), FrameEvent::Started)
    &&& steps[0] == first.next(FrameRun::fresh(total), FrameEvent::Started)
    &&& forall|i: int|
        0 <= i < events.len() ==> leads(steps[i], #[trigger] events[i], steps[i + 1])
}

/// The pixels that a frame has traced, those of the batch at hand included.
spec fn traced_so_far(step: FrameStep) -> int {
    if step.action is TracePixel {
        step.run.traced + step.run.batch - step.run.left
    } else {
        step.run.traced as int
    }
}

/// Whether everything is accounted for in a frame that has ended `passes` passes.
#[verifier::opaque]
spec fn accounted(first: Progress, total: usize, step: FrameStep, passes: nat) -> bool {
    &&& step.progress.awaits(step.run, step.action)
    &&& step.run.total == total
    &&& first.next_pixel + traced_so_far(step) == step.progress.next_pixel + total * passes
    &&& step.progress.window_samples == first.window_samples + step.run.traced
    &&& step.progress.iteration == (first.iteration + passes) % 0x1_0000_0000
    &&& step.progress.window_passes == (first.window_passes + passes) % 0x1_0000_0000
}

/// The start of a frame is accounted for.
proof fn start_is_accounted_for(first: Progress, total: usize)
    requires
        first.expects(FrameRun::fresh(total), FrameEvent::Started),
    ensures
        accounted(first, total, first.next(FrameRun::fresh(total), FrameEvent::Started), 0),
{
    reveal(accounted);
    assert(total * 0 == 0);
}

/// An event that leads on keeps the account.
proof fn step_is_accounted_for(
    first: Progress,
    total: usize,
    before: FrameStep,
    event: FrameEvent,
    after: FrameStep,
    passes: nat,
)
    requires
        accounted(first, total, before, passes),
        leads(before, event, after),
    ensures
        accounted(
            first,
            total,
            after,
            if event is PassTimed {
                passes + 1
            } else {
                passes
            },
        ),
{
    reveal(accounted);
    reveal(leads);
    if event is PassTimed {
        assert(total * (passes + 1) == total * passes + total) by (nonlinear_arith);
    }
}

/// A frame is accounted for after any number of its events.
proof fn part_of_a_frame(
    first: Progress,
    total: usize,
    steps: Seq<FrameStep>,
    events: Seq<FrameEvent>,
) -> (passes: nat)
    requires
        played(first, total, steps, events),
    ensures
        accounted(first, total, steps.last(), passes),
    decreases events.len(),
{
    if events.len() == 0 {
        start_is_accounted_for(first, total);
        0
    } else {
        let last = events.len() - 1;
        assert forall|i: int| 0 <= i < last implies leads(
            steps.drop_last()[i],
            #[trigger] events.drop_last()[i],
            steps.drop_last()[i + 1],
        ) by {
            assert(leads(steps[i], events[i], steps[i + 1]));
        }
        let passes = part_of_a_frame(first, total, steps.drop_last(), events.drop_last());
        assert(leads(steps[last], events[last], steps[last + 1]));
        step_is_accounted_for(first, total, steps[last], events[last], steps[last + 1], passes);
        if events[last] is PassTimed {
            passes + 1
        } else {
            passes
        }
    }
}

/// A whole frame, whatever the clock says: the next pixel has moved on by as
/// many places as pixels were traced, round and round the picture; those pixels
/// are counted as samples, and the completed pictures as passes.
pub proof fn frame_is_accounted_for(
    first: Progress,
    total: usize,
    steps: Seq<FrameStep>,
    events: Seq<FrameEvent>,
)
    requires
        played(first, total, steps, events),
        steps.last().action is Finish,
    ensures
        ({
            let last = steps.last().progress;
            let traced = steps.last().run.traced;
            let passes = (first.next_pixel + traced) / total as int;
            &&& last.next_pixel == (first.next_pixel + traced) % total as int
            &&& last.window_samples == first.window_samples + traced
            &&& last.iteration == (first.iteration + passes) % 0x1_0000_0000
            &&& last.window_passes == (first.window_passes + passes) % 0x1_0000_0000
            &&& min_pixels_of(total as int) <= traced || total <= traced
            &&& traced < total + PIXEL_BATCH
        }),
{
    let passes = part_of_a_frame(first, total, steps, events);
    reveal(accounted);
    let last = steps.last().progress;
    let traced = steps.last().run.traced;
    assert(total * passes == passes * total) by (nonlinear_arith);
    lemma_fundamental_div_mod_converse(
        first.next_pixel + traced,
        total as int,
        passes as int,
        last.next_pixel as int,
    );
}

/// The least work of a frame is a share of one in 192 of all pixels, rounded
/// down, but never fewer than 1024 pixels nor more than 16384.
pub proof fn least_work_is_a_share(total: int)
    requires
        0 <= total,
    ensures
        1024 <= min_pixels_of(total) <= 16384,
        min_pixels_of(total) > 1024 ==> 192 * min_pixels_of(total) <= total,
        min_pixels_of(total) < 16384 ==> total < 192 * (min_pixels_of(total) + 1),
{
}

/// Beyond its minimum a frame goes on just when less than twelve milliseconds
/// have passed.
pub proof fn clock_ends_a_frame(progress: Progress, run: FrameRun, elapsed: u64)
    ensures
        ({
            let step = progress.next(run, FrameEvent::ClockRead { elapsed });
            &&& less(elapsed, 0x4028_0000_0000_0000) ==> step.action is TracePixel
            &&& !less(elapsed, 0x4028_0000_0000_0000) ==> step.action is Finish
            &&& step.progress == progress
            &&& step.run.total == run.total && step.run.traced == run.traced
        }),
{
}

/// A new batch takes 256 pixels, or as many as the pass has left if those are
/// fewer, and has no rays yet. It does not change what was done before.
pub proof fn batches_are_cut_from_the_pass(progress: Progress, run: FrameRun, event: FrameEvent)
    requires
        progress.expects(run, event),
        !(event is PixelTraced),
        progress.next(run, event).action is TracePixel,
    ensures
        ({
            let step = progress.next(run, event);
            let remain = run.total - step.progress.next_pixel;
            &&& step.run.batch == step.run.left
            &&& step.run.batch <= 256 && step.run.batch <= remain
            &&& step.run.batch == 256 || step.run.batch == remain
            &&& step.run.rays == 0
            &&& step.run.traced == run.traced && step.run.total == run.total
        }),
{
}

/// A traced pixel is one step on in the pass and one more sample of it, and its
/// rays are counted once, in the pass and in the window, be it at once or with
/// the rest of its batch.
pub proof fn pixels_are_counted_once(progress: Progress, run: FrameRun, rays: u32)
    requires
        progress.expects(run, FrameEvent::PixelTraced { rays }),
    ensures
        ({
            let step = progress.next(run, FrameEvent::PixelTraced { rays });
            let after = step.progress;
            &&& after.next_pixel == progress.next_pixel + 1
            &&& after.pass_samples == progress.pass_samples + 1
            &&& after.pass_rays + step.run.rays == progress.pass_rays + run.rays + rays
            &&& after.window_rays + step.run.rays == progress.window_rays + run.rays + rays
            &&& run.left > 1 ==> {
                &&& step.action is TracePixel
                &&& step.run.left == run.left - 1 && step.run.batch == run.batch
                &&& step.run.traced == run.traced
                &&& after.window_samples == progress.window_samples
                &&& step.run.rays == run.rays + rays
            }
            &&& run.left == 1 ==> {
                &&& step.run.traced == run.traced + run.batch
                &&& after.window_samples == progress.window_samples + run.batch
                &&& step.run.rays == 0
            }
            &&& after.iteration == progress.iteration && after.window_passes
                == progress.window_passes
            &&& after.pass_start_time == progress.pass_start_time && after.last_pass_ms
                == progress.last_pass_ms
            &&& after.last_pass_rays == progress.last_pass_rays && after.last_pass_samples
                == progress.last_pass_samples
        }),
{
}

/// What follows a finished batch: the end of the pass if that was its last pixel;
/// else the end of the frame if the whole picture was traced; else another batch
/// if the frame has not done its minimum; and else a look at the clock.
pub proof fn batches_follow_each_other(progress: Progress, run: FrameRun, rays: u32)
    requires
        progress.expects(run, FrameEvent::PixelTraced { rays }),
        run.left == 1,
    ensures
        ({
            let step = progress.next(run, FrameEvent::PixelTraced { rays });
            let traced = run.traced + run.batch;
            &&& step.action is TimePass <==> progress.next_pixel + 1 == run.total
            &&& step.action is Finish <==> progress.next_pixel + 1 < run.total && traced
                >= run.total
            &&& step.action is TracePixel <==> progress.next_pixel + 1 < run.total && traced
                < run.total && traced < run.min_pixels
            &&& step.action is ReadClock <==> progress.next_pixel + 1 < run.total && traced
                < run.total && traced >= run.min_pixels
        }),
{
}

/// A finished pass is counted, its time, rays and samples are kept, and the next
/// one starts at the first pixel with nothing counted. The frame ends if it has
/// traced the whole picture, and goes on as after any batch otherwise.
pub proof fn passes_follow_each_other(progress: Progress, run: FrameRun, now: u64, took: u64)
    requires
        progress.expects(run, FrameEvent::PassTimed { now, took }),
    ensures
        ({
            let step = progress.next(run, FrameEvent::PassTimed { now, took });
            let after = step.progress;
            &&& after.next_pixel == 0 && after.pass_rays == 0 && after.pass_samples == 0
            &&& after.pass_start_time == now && after.last_pass_ms == took
            &&& after.last_pass_rays == progress.pass_rays
            &&& after.last_pass_samples == progress.pass_samples
            &&& after.iteration == (progress.iteration + 1) % 0x1_0000_0000
            &&& after.window_passes == (progress.window_passes + 1) % 0x1_0000_0000
            &&& after.window_samples == progress.window_samples && after.window_rays
                == progress.window_rays
            &&& step.action is Finish <==> run.traced >= run.total
            &&& step.action is TracePixel <==> run.traced < run.total && run.traced
                < run.min_pixels
            &&& step.action is ReadClock <==> run.traced < run.total && run.traced
                >= run.min_pixels
        }),
{
}

/// A frame starts with nothing traced and with its minimum to do, so it traces a
/// pixel first.
pub proof fn frames_start_with_a_pixel(progress: Progress, total: usize)
    requires
        progress.expects(FrameRun::fresh(total), FrameEvent::Started),
    ensures
        FrameRun::fresh(total).total == total,
        FrameRun::fresh(total).traced == 0,
        FrameRun::fresh(total).rays == 0,
        FrameRun::fresh(total).min_pixels == min_pixels_of(total as int),
        progress.next(FrameRun::fresh(total), FrameEvent::Started).action is TracePixel,
        progress.next(FrameRun::fresh(total), FrameEvent::Started).progress == progress,
{
}

/// A picture that starts anew has no passes, no next pixel but the first and an
/// empty pass that starts now; its window goes on. Only a change of size keeps
/// what the last pass was like.
pub proof fn pictures_start_anew(progress: Progress, now: u64)
    ensures
        ({
            let (a, b) = (progress.cleared(now), progress.restarted(now));
            &&& a.iteration == 0 && a.next_pixel == 0 && a.pass_rays == 0 && a.pass_samples == 0
            &&& b.iteration == 0 && b.next_pixel == 0 && b.pass_rays == 0 && b.pass_samples == 0
            &&& a.pass_start_time == now && b.pass_start_time == now
            &&& a.last_pass_ms == 0 && a.last_pass_rays == 0 && a.last_pass_samples == 0
            &&& b.last_pass_ms == progress.last_pass_ms && b.last_pass_rays
                == progress.last_pass_rays && b.last_pass_samples == progress.last_pass_samples
            &&& a.window_passes == progress.window_passes && b.window_passes
                == progress.window_passes
            &&& a.window_samples == progress.window_samples && b.window_samples
                == progress.window_samples
            &&& a.window_rays == progress.window_rays && b.window_rays == progress.window_rays
            &&& Progress::fresh(now).cleared(now) == Progress::fresh(now)
            &&& Progress::fresh(now).window_passes == 0 && Progress::fresh(now).window_samples == 0
                && Progress::fresh(now).window_rays == 0
        }),
{
}

} // verus!
