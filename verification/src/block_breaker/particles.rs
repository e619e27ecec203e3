//! Sparks: how many there are, and when they go out.

use vstd::prelude::*;
use crate::bits64::{self, less};

verus! {

/// The sparks of a broken brick.
pub const HIT_PARTICLES: usize = 12;

/// The sparks that a flying ball leaves behind in each frame.
pub const TRAIL_PARTICLES: usize = 3;

/// More sparks than this are too many.
pub const MAX_PARTICLES: usize = 260;

/// The sparks that go out when there are too many.
pub const DROPPED_PARTICLES: usize = 80;

/// A spark with no more than this radius (0.4) goes out.
pub const LEAST_RADIUS: u64 = 0x3fd9_9999_9999_999a;

/// The least number of stars.
pub const LEAST_STARS: usize = 60;

/// A spark, in double-precision patterns.
#[derive(Clone, Copy, PartialEq, Eq, Structural, Debug)]
pub struct Particle {
    pub x: u64,
    pub y: u64,
    pub vx: u64,
    pub vy: u64,
    pub life: u64,
    pub radius: u64,
}

/// A star, in double-precision patterns.
#[derive(Clone, Copy, PartialEq, Eq, Structural, Debug)]
pub struct Star {
    pub x: u64,
    pub y: u64,
    pub r: u64,
    pub phase: u64,
}

/// Whether a spark still glows.
pub open spec fn glows(p: Particle) -> bool {
    less(bits64::ZERO, p.life) && less(LEAST_RADIUS, p.radius)
}

/// The sparks that still glow.
pub open spec fn glowing(particles: Seq<Particle>) -> Seq<Particle> {
    particles.filter(|p: Particle| glows(p))
}

/// The sparks without the oldest ones, when they are too many.
pub open spec fn thinned(particles: Seq<Particle>) -> Seq<Particle> {
    if particles.len() > MAX_PARTICLES {
        particles.skip(DROPPED_PARTICLES as int)
    } else {
        particles
    }
}

/// Adds new sparks behind those that are there.
pub fn add_all(particles: &mut Vec<Particle>, fresh: &Vec<Particle>)
    ensures
        final(particles)@ == old(particles)@ + fresh@,
{
    let mut i: usize = 0;
    while i < fresh.len()
        invariant
            i <= fresh@.len(),
            particles@ == old(particles)@ + fresh@.take(i as int),
        decreases fresh@.len() - i,
    {
        particles.push(fresh[i]);
        assert(fresh@.take(i + 1) =~= fresh@.take(i as int).push(fresh@[i as int]));
        i += 1;
    }
    assert(fresh@.take(fresh@.len() as int) =~= fresh@);
}

/// Adds the sparks of a broken brick, and drops the oldest when there are too
/// many.
pub fn spawn_hit_particles(particles: &mut Vec<Particle>, burst: &Vec<Particle>)
    ensures
        final(particles)@ == thinned(old(particles)@ + burst@),
{
    add_all(particles, burst);
    if particles.len() > MAX_PARTICLES {
        let ghost all = particles@;
        let mut kept: Vec<Particle> = Vec::new();
        let mut i: usize = DROPPED_PARTICLES;
        while i < particles.len()
            invariant
                DROPPED_PARTICLES <= i <= particles@.len(),
                particles@ == all,
                kept@ == all.subrange(DROPPED_PARTICLES as int, i as int),
            decreases particles@.len() - i,
        {
            kept.push(particles[i]);
            assert(kept@ =~= all.subrange(DROPPED_PARTICLES as int, i + 1));
            i += 1;
        }
        *particles = kept;
        assert(particles@ =~= thinned(all));
    }
}

/// Keeps the sparks that still glow, in their order.
pub fn retain_glowing(particles: &Vec<Particle>) -> (r: Vec<Particle>)
    ensures
        r@ == glowing(particles@),
{
    let mut kept: Vec<Particle> = Vec::new();
    let mut i: usize = 0;
    while i < particles.len()
        invariant
            i <= particles@.len(),
            kept@ == glowing(particles@.take(i as int)),
        decreases particles@.len() - i,
    {
        let p: Particle = particles[i];
        proof {
            reveal(Seq::filter);
            assert(particles@.take(i + 1).drop_last() =~= particles@.take(i as int));
        }
        if bits64::lt(bits64::ZERO, p.life) && bits64::lt(LEAST_RADIUS, p.radius) {
            kept.push(p);
        }
        i += 1;
    }
    assert(particles@.take(particles@.len() as int) =~= particles@);
    kept
}

/// As many stars as were computed, but not too few.
pub open spec fn enough_stars(computed: usize) -> usize {
    if computed < LEAST_STARS {
        LEAST_STARS
    } else {
        computed
    }
}

/// The number of stars: what was computed from the size of the screen, but not
/// less than the least number.
pub fn star_count(computed: usize) -> (r: usize)
    ensures
        r == enough_stars(computed),
{
    if computed < LEAST_STARS {
        LEAST_STARS
    } else {
        computed
    }
}

/// A burst never leaves more sparks than there were plus its own, and once they
/// are too many it leaves fewer than before.
pub proof fn bursts_are_thinned(particles: Seq<Particle>, burst: Seq<Particle>)
    requires
        burst.len() == HIT_PARTICLES,
    ensures
        thinned(particles + burst).len() == if particles.len() + HIT_PARTICLES > MAX_PARTICLES {
            particles.len() - (DROPPED_PARTICLES - HIT_PARTICLES)
        } else {
            particles.len() + HIT_PARTICLES
        },
        thinned(particles + burst).subrange(
            thinned(particles + burst).len() - HIT_PARTICLES,
            thinned(particles + burst).len() as int,
        ) == burst,
{
    let all = particles + burst;
    let t = thinned(all);
    assert(t.subrange(t.len() - HIT_PARTICLES, t.len() as int) =~= burst);
}

/// Only glowing sparks are kept.
pub proof fn kept_sparks_glow(particles: Seq<Particle>, i: int)
    requires
        0 <= i < glowing(particles).len(),
    ensures
        glows(glowing(particles)[i]),
        particles.contains(glowing(particles)[i]),
{
    let f = |p: Particle| glows(p);
    particles.lemma_filter_pred(f, i);
    particles.lemma_filter_contains_rev(f, glowing(particles)[i]);
}

/// Sparks are kept one by one, in their order: just those with some life left and
/// a radius above 0.4.
pub proof fn sparks_are_kept_one_by_one(particles: Seq<Particle>, p: Particle)
    ensures
        glowing(Seq::<Particle>::empty()) == Seq::<Particle>::empty(),
        less(0, p.life) && less(0x3fd9_9999_9999_999a, p.radius) ==> glowing(particles.push(p))
            == glowing(particles).push(p),
        !(less(0, p.life) && less(0x3fd9_9999_9999_999a, p.radius)) ==> glowing(particles.push(p))
            == glowing(particles),
{
    reveal(Seq::filter);
    assert(particles.push(p).drop_last() =~= particles);
}

/// Up to 260 sparks are all kept. Of more, the 80 oldest are dropped, and the rest
/// stay in their order.
pub proof fn oldest_sparks_are_dropped(particles: Seq<Particle>, i: int)
    ensures
        particles.len() <= 260 ==> thinned(particles) == particles,
        particles.len() > 260 ==> thinned(particles).len() == particles.len() - 80,
        particles.len() > 260 && 0 <= i < particles.len() - 80 ==> thinned(particles)[i]
            == particles[i + 80],
{
}

/// There are at least sixty stars, and else as many as were computed.
pub proof fn sky_has_enough_stars(computed: usize)
    ensures
        enough_stars(computed) >= 60,
        enough_stars(computed) >= computed,
        enough_stars(computed) == computed || enough_stars(computed) == 60,
{
}

} // verus!
