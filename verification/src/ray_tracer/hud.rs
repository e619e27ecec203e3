//! The line of figures over the software renderer's picture.

use vstd::prelude::*;
use crate::bits64::{self, greater};
use crate::ray_tracer::cpu::State;

verus! {

/// The least margin (8), font size (12) and width (260) of the line.
pub const LEAST_PAD: u64 = 0x4020_0000_0000_0000;
pub const LEAST_FONT: u64 = 0x4028_0000_0000_0000;
pub const LEAST_WIDTH: u64 = 0x4070_4000_0000_0000;

impl State {
    /// The pixels that the pass has traced, out of all.
    pub open spec fn part_done(self) -> Option<(usize, usize)> {
        if self.total() == 0 {
            None
        } else {
            Some((self.progress.next_pixel, self.total() as usize))
        }
    }

    /// The pixels that the pass has traced, out of all. There is no such part of
    /// a picture without pixels.
    pub fn pass_progress(&self) -> (r: Option<(usize, usize)>)
        requires
            self.wf(),
        ensures
            r == self.part_done(),
            r matches Some((done, all)) ==> done < all,
    {
        let total: usize = (self.render_w * self.render_h) as usize;
        if total == 0 {
            None
        } else {
            Some((self.progress.next_pixel, total))
        }
    }
}

/// A margin that is not too narrow.
pub open spec fn fitting_pad(scaled: u64) -> u64 {
    greater(scaled, LEAST_PAD)
}

/// A font that is not too small.
pub open spec fn fitting_font(scaled: u64) -> u64 {
    greater(scaled, LEAST_FONT)
}

/// A line that is not too short.
pub open spec fn fitting_width(needed: u64) -> u64 {
    greater(needed, LEAST_WIDTH)
}

/// The margin of the line.
pub fn hud_pad(scaled: u64) -> (r: u64)
    ensures
        r == fitting_pad(scaled),
{
    bits64::max(scaled, LEAST_PAD)
}

/// The size of its font.
pub fn hud_font(scaled: u64) -> (r: u64)
    ensures
        r == fitting_font(scaled),
{
    bits64::max(scaled, LEAST_FONT)
}

/// Its width.
pub fn hud_width(needed: u64) -> (r: u64)
    ensures
        r == fitting_width(needed),
{
    bits64::max(needed, LEAST_WIDTH)
}

/// The line has a margin of at least 8, a font of at least 12 and a width of at
/// least 260, and else what was worked out for it.
pub proof fn line_is_legible(x: u64)
    ensures
        bits64::at_most(0x4020_0000_0000_0000, x) ==> bits64::same(fitting_pad(x), x),
        !bits64::at_most(0x4020_0000_0000_0000, x) ==> fitting_pad(x) == 0x4020_0000_0000_0000,
        bits64::at_most(0x4028_0000_0000_0000, x) ==> bits64::same(fitting_font(x), x),
        !bits64::at_most(0x4028_0000_0000_0000, x) ==> fitting_font(x) == 0x4028_0000_0000_0000,
        bits64::at_most(0x4070_4000_0000_0000, x) ==> bits64::same(fitting_width(x), x),
        !bits64::at_most(0x4070_4000_0000_0000, x) ==> fitting_width(x) == 0x4070_4000_0000_0000,
{
}

/// What is done of a pass is as many pixels as the next one has before it, out of
/// width times height.
pub proof fn progress_is_shown(state: State)
    requires
        state.wf(),
    ensures
        state.part_done() is None <==> state.render_w * state.render_h == 0,
        state.part_done() matches Some((done, all)) ==> done == state.progress.next_pixel && all
            == state.render_w * state.render_h && done < all,
{
}

} // verus!
