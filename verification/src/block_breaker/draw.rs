//! What of the game is drawn, and how brightly.

use vstd::prelude::*;
use crate::bits64::{self, clamped, ZERO};
use crate::block_breaker::bricks::{standing, Brick};
use crate::block_breaker::game::Game;

verus! {

/// The faintest and brightest star (0.2 and 0.9).
pub const FAINTEST_STAR: u64 = 0x3fc9_9999_9999_999a;
pub const BRIGHTEST_STAR: u64 = 0x3fec_cccc_cccc_cccd;

/// The brightest spark (0.6).
pub const BRIGHTEST_SPARK: u64 = 0x3fe3_3333_3333_3333;

/// The bricks that still stand, in their order.
pub open spec fn unbroken(bricks: Seq<Brick>) -> Seq<Brick> {
    bricks.filter(|b: Brick| b.alive)
}

impl Game {
    /// The bricks to draw.
    pub fn drawn_bricks(&self) -> (r: Vec<Brick>)
        ensures
            r@ == unbroken(self.bricks@),
    {
        let mut kept: Vec<Brick> = Vec::new();
        let mut i: usize = 0;
        while i < self.bricks.len()
            invariant
                i <= self.bricks@.len(),
                kept@ == unbroken(self.bricks@.take(i as int)),
            decreases self.bricks@.len() - i,
        {
            proof {
                reveal(Seq::filter);
                assert(self.bricks@.take(i + 1).drop_last() =~= self.bricks@.take(i as int));
            }
            if self.bricks[i].alive {
                kept.push(self.bricks[i]);
            }
            i += 1;
        }
        assert(self.bricks@.take(self.bricks@.len() as int) =~= self.bricks@);
        kept
    }
}

/// The opacity of a star within its limits.
pub open spec fn star_opacity(twinkle: u64) -> u64 {
    clamped(twinkle, FAINTEST_STAR, BRIGHTEST_STAR)
}

/// The opacity of a spark within its limits.
pub open spec fn spark_opacity(glow: u64) -> u64 {
    clamped(glow, ZERO, BRIGHTEST_SPARK)
}

/// The opacity of a twinkling star.
pub fn star_alpha(twinkle: u64) -> (r: u64)
    ensures
        r == star_opacity(twinkle),
{
    bits64::clamp(twinkle, FAINTEST_STAR, BRIGHTEST_STAR)
}

/// The opacity of a spark.
pub fn spark_alpha(glow: u64) -> (r: u64)
    ensures
        r == spark_opacity(glow),
{
    bits64::clamp(glow, ZERO, BRIGHTEST_SPARK)
}

/// As many bricks are drawn as still stand.
pub proof fn standing_bricks_are_drawn(bricks: Seq<Brick>)
    ensures
        unbroken(bricks).len() == standing(bricks),
    decreases bricks.len(),
{
    reveal(Seq::filter);
    if bricks.len() > 0 {
        standing_bricks_are_drawn(bricks.drop_last());
    }
}

/// Bricks are drawn one by one, in their order, if they stand.
pub proof fn bricks_are_drawn_one_by_one(bricks: Seq<Brick>, brick: Brick)
    ensures
        unbroken(Seq::<Brick>::empty()) == Seq::<Brick>::empty(),
        brick.alive ==> unbroken(bricks.push(brick)) == unbroken(bricks).push(brick),
        !brick.alive ==> unbroken(bricks.push(brick)) == unbroken(bricks),
{
    reveal(Seq::filter);
    assert(bricks.push(brick).drop_last() =~= bricks);
}

/// Stars twinkle between 0.2 and 0.9, sparks between nothing and 0.6; what is
/// worked out within these limits stays.
pub proof fn lights_stay_within_limits(x: u64)
    ensures
        bits64::less(x, 0x3fc9_9999_9999_999a) ==> star_opacity(x) == 0x3fc9_9999_9999_999a,
        bits64::less(0x3fec_cccc_cccc_cccd, x) ==> star_opacity(x) == 0x3fec_cccc_cccc_cccd,
        bits64::at_most(0x3fc9_9999_9999_999a, x) && bits64::at_most(x, 0x3fec_cccc_cccc_cccd)
            ==> star_opacity(x) == x,
        bits64::less(x, 0) ==> spark_opacity(x) == 0,
        bits64::less(0x3fe3_3333_3333_3333, x) ==> spark_opacity(x) == 0x3fe3_3333_3333_3333,
        bits64::at_most(0, x) && bits64::at_most(x, 0x3fe3_3333_3333_3333) ==> spark_opacity(x)
            == x,
{
}

} // verus!
