//! One light path through the scene, as a state machine.
//!
//! The machine decides what happens at each surface, draws the random numbers
//! and says when the path ends. The caller performs the actions (it traces rays
//! and does the arithmetic on directions and colors) and reports back.

use vstd::prelude::*;
use crate::bits32::{self, at_most, greater, less, ONE, ZERO};
use crate::ray_tracer::materials::{
    albedo_of, get_mat, kind_of, param_of, Mat, CHECKERED, DIFFUSE, EMISSIVE,
    MAIN_LIGHT, METAL,
};
use crate::ray_tracer::rng::{drawn, state_after, Rng};
use crate::ray_tracer::scene::Hit;
use crate::ray_tracer::units::{Centi3, V3};

verus! {

/// The most surfaces that a path visits.
pub const MAX_BOUNCE: u32 = 10;

/// After this many further bounces a path may be ended at random.
pub const ROULETTE_AFTER: u32 = 4;

/// The least chance (0.05) with which a path goes on.
pub const ROULETTE_FLOOR: u32 = 0x3d4c_cccd;

/// What the machine waits for.
#[derive(Clone, Copy, PartialEq, Eq, Structural, Debug)]
pub enum Phase {
    /// The result of tracing the ray.
    Tracing,
    /// The new color weight behind a diffuse surface.
    AtDiffuse,
    /// The new direction and color weight behind a metal surface.
    AtMetal,
    /// The optics at a dielectric surface.
    AtGlass,
    /// The color weight behind a dielectric surface.
    Bending,
    /// A roll against the chance to go on.
    Rolling { chance: u32 },
    /// Word that the color weight was divided by the chance.
    Weighting,
    /// Nothing: the path has ended.
    Finished,
}

/// What the caller reports.
#[derive(Clone, Copy, PartialEq, Eq, Structural, Debug)]
pub enum PathEvent {
    /// The ray hit material `mat_id`, from the front or not.
    Struck { mat_id: u8, front: bool },
    /// The ray left the scene.
    Escaped,
    /// The direct light was added, and the ray scattered.
    Scattered { throughput: V3 },
    /// The ray was mirrored; `along` is its cosine with the normal.
    Mirrored { along: u32, throughput: V3 },
    /// The index ratio times the sine of the incident angle, the reflectance,
    /// and the drawn number as a fraction.
    Measured { bend: u32, reflectance: u32, roll: u32 },
    /// The drawn number as a fraction.
    Rolled { roll: u32 },
    /// The color weight was divided.
    Weighted,
}

/// What the caller is to do next.
#[derive(Clone, Copy, PartialEq, Eq, Debug)]
pub enum PathAction {
    /// Trace the ray.
    Trace,
    /// Add the light of material `mat_id`; the path has ended.
    Emit { mat_id: u8 },
    /// The path has ended.
    Finish,
    /// Sample the light with the first pair of drawn numbers and scatter the ray
    /// with the second. No color means that of the checkered floor.
    Diffuse { color: Option<Centi3>, light: (u32, u32), direction: (u32, u32) },
    /// Mirror the ray, shaken by the drawn numbers times `fuzz` hundredths.
    Metal { albedo: Centi3, fuzz: i32, shake: (u32, u32, u32) },
    /// Measure the optics of a medium with the given index in hundredths, its
    /// reciprocal if `invert`.
    Glass { index: i32, invert: bool, draw: u32 },
    /// Reflect the ray, or refract it.
    Bend { reflect: bool },
    /// Turn the drawn number into a fraction.
    Roll { draw: u32 },
    /// Divide the color weight by the chance.
    Weigh { chance: u32 },
}

/// A path on its way.
#[derive(Clone, Copy, PartialEq, Eq, Structural, Debug)]
pub struct PathTracer {
    /// The state of the random numbers.
    pub rng: u32,
    /// How many surfaces the path has left behind.
    pub bounce: u32,
    /// How many rays of the path were traced.
    pub rays: u32,
    /// Whether the ray comes straight from the camera or off a mirroring
    /// surface.
    pub specular: bool,
    pub phase: Phase,
}

/// Whether an event is what a phase waits for.
pub open spec fn expected(phase: Phase, event: PathEvent) -> bool {
    match phase {
        Phase::Tracing => event is Struck || event is Escaped,
        Phase::AtDiffuse => event is Scattered,
        Phase::AtMetal => event is Mirrored,
        Phase::AtGlass => event is Measured,
        Phase::Bending => event is Scattered,
        Phase::Rolling { .. } => event is Rolled,
        Phase::Weighting => event is Weighted,
        Phase::Finished => false,
    }
}

/// The chance with which a path of this color weight goes on.
pub open spec fn survival_chance(throughput: V3) -> u32 {
    greater(throughput.largest(), ROULETTE_FLOOR)
}

impl PathTracer {
    /// The bounces are counted, and each of them traced one ray.
    pub open spec fn wf(self) -> bool {
        &&& self.bounce < MAX_BOUNCE
        &&& self.rays == self.bounce + 1
        &&& self.phase is Rolling || self.phase is Weighting ==> self.bounce > ROULETTE_AFTER
        &&& self.phase matches Phase::Rolling { chance } ==> at_most(ROULETTE_FLOOR, chance)
    }

    /// The path in another phase.
    pub open spec fn waiting(self, phase: Phase) -> PathTracer {
        PathTracer { phase, ..self }
    }

    /// The path after the arrival at a surface.
    pub open spec fn at_surface(self, mat_id: u8, front: bool) -> (PathTracer, PathAction) {
        let kind = kind_of(mat_id);
        if kind == EMISSIVE {
            (
                self.waiting(Phase::Finished),
                if self.specular || mat_id != MAIN_LIGHT {
                    PathAction::Emit { mat_id }
                } else {
                    PathAction::Finish
                },
            )
        } else if kind == DIFFUSE {
            (
                PathTracer {
                    rng: state_after(self.rng, 4),
                    specular: false,
                    phase: Phase::AtDiffuse,
                    ..self
                },
                PathAction::Diffuse {
                    color: if mat_id == CHECKERED {
                        None
                    } else {
                        Some(albedo_of(mat_id))
                    },
                    light: (drawn(self.rng, 0), drawn(self.rng, 1)),
                    direction: (drawn(self.rng, 2), drawn(self.rng, 3)),
                },
            )
        } else if kind == METAL {
            (
                PathTracer {
                    rng: state_after(self.rng, 3),
                    specular: true,
                    phase: Phase::AtMetal,
                    ..self
                },
                PathAction::Metal {
                    albedo: albedo_of(mat_id),
                    fuzz: param_of(mat_id),
                    shake: (drawn(self.rng, 0), drawn(self.rng, 1), drawn(self.rng, 2)),
                },
            )
        } else {
            (
                PathTracer {
                    rng: state_after(self.rng, 1),
                    specular: true,
                    phase: Phase::AtGlass,
                    ..self
                },
                PathAction::Glass {
                    index: param_of(mat_id),
                    invert: front,
                    draw: drawn(self.rng, 0),
                },
            )
        }
    }

    /// The path when it has dealt with a surface for good.
    pub open spec fn onward(self) -> (PathTracer, PathAction) {
        if self.bounce + 1 < MAX_BOUNCE {
            (
                PathTracer {
                    bounce: (self.bounce + 1) as u32,
                    rays: (self.rays + 1) as u32,
                    phase: Phase::Tracing,
                    ..self
                },
                PathAction::Trace,
            )
        } else {
            (self.waiting(Phase::Finished), PathAction::Finish)
        }
    }

    /// The path when it leaves a surface with a color weight.
    pub open spec fn leaving(self, throughput: V3) -> (PathTracer, PathAction) {
        if self.bounce > ROULETTE_AFTER {
            (
                PathTracer {
                    rng: state_after(self.rng, 1),
                    phase: Phase::Rolling { chance: survival_chance(throughput) },
                    ..self
                },
                PathAction::Roll { draw: drawn(self.rng, 0) },
            )
        } else {
            self.onward()
        }
    }

    /// The path after an expected event, and what is to be done.
    pub open spec fn next(self, event: PathEvent) -> (PathTracer, PathAction) {
        match event {
            PathEvent::Struck { mat_id, front } => self.at_surface(mat_id, front),
            PathEvent::Escaped => (self.waiting(Phase::Finished), PathAction::Finish),
            PathEvent::Scattered { throughput } => self.leaving(throughput),
            PathEvent::Mirrored { along, throughput } => if less(along, ZERO) {
                (self.waiting(Phase::Finished), PathAction::Finish)
            } else {
                self.leaving(throughput)
            },
            PathEvent::Measured { bend, reflectance, roll } => (
                self.waiting(Phase::Bending),
                PathAction::Bend { reflect: less(ONE, bend) || less(roll, reflectance) },
            ),
            PathEvent::Rolled { roll } => if less(self.phase->chance, roll) {
                (self.waiting(Phase::Finished), PathAction::Finish)
            } else {
                (
                    self.waiting(Phase::Weighting),
                    PathAction::Weigh { chance: self.phase->chance },
                )
            },
            PathEvent::Weighted => self.onward(),
        }
    }

    /// How far the path is at most from its end.
    pub open spec fn steps_left(self) -> nat {
        let here: nat = match self.phase {
            Phase::Tracing => 5,
            Phase::AtGlass => 4,
            Phase::AtDiffuse => 3,
            Phase::AtMetal => 3,
            Phase::Bending => 3,
            Phase::Rolling { .. } => 2,
            Phase::Weighting => 1,
            Phase::Finished => 0,
        };
        if self.phase is Finished {
            0
        } else {
            ((MAX_BOUNCE - self.bounce) * 6 + here) as nat
        }
    }

    /// A path that has just left the camera.
    pub open spec fn fresh(rng: u32) -> PathTracer {
        PathTracer { rng, bounce: 0, rays: 1, specular: true, phase: Phase::Tracing }
    }

    /// Starts a path whose random numbers come from `rng`. Its first ray is to
    /// be traced.
    pub fn begin(rng: u32) -> (r: PathTracer)
        ensures
            r == PathTracer::fresh(rng),
            r.wf(),
    {
        PathTracer { rng, bounce: 0, rays: 1, specular: true, phase: Phase::Tracing }
    }

    /// Moves the path on after an event.
    pub fn step(&mut self, event: PathEvent) -> (action: PathAction)
        requires
            old(self).wf(),
            expected(old(self).phase, event),
        ensures
            (*final(self), action) == old(self).next(event),
            final(self).wf(),
    {
        match event {
            PathEvent::Struck { mat_id, front } => self.strike(mat_id, front),
            PathEvent::Escaped => self.finish(),
            PathEvent::Scattered { throughput } => self.leave(throughput),
            PathEvent::Mirrored { along, throughput } => if bits32::lt(along, ZERO) {
                self.finish()
            } else {
                self.leave(throughput)
            },
            PathEvent::Measured { bend, reflectance, roll } => {
                self.phase = Phase::Bending;
                PathAction::Bend { reflect: bits32::lt(ONE, bend) || bits32::lt(roll, reflectance) }
            },
            PathEvent::Rolled { roll } => {
                let chance: u32 = match self.phase {
                    Phase::Rolling { chance } => chance,
                    _ => ONE,
                };
                if bits32::lt(chance, roll) {
                    self.finish()
                } else {
                    self.phase = Phase::Weighting;
                    PathAction::Weigh { chance }
                }
            },
            PathEvent::Weighted => self.go_on(),
        }
    }

    /// Ends the path.
    fn finish(&mut self) -> (action: PathAction)
        ensures
            (*final(self), action) == (old(self).waiting(Phase::Finished), PathAction::Finish),
    {
        self.phase = Phase::Finished;
        PathAction::Finish
    }

    /// Arrives at a surface.
    fn strike(&mut self, mat_id: u8, front: bool) -> (action: PathAction)
        ensures
            (*final(self), action) == old(self).at_surface(mat_id, front),
    {
        let mat: Mat = get_mat(mat_id);
        if mat.kind == EMISSIVE {
            self.phase = Phase::Finished;
            if self.specular || mat_id != MAIN_LIGHT {
                return PathAction::Emit { mat_id };
            }
            return PathAction::Finish;
        }
        proof {
            reveal_with_fuel(state_after, 5);
        }
        let mut rng: Rng = Rng(self.rng);
        if mat.kind == DIFFUSE {
            let light: (u32, u32) = rng.next_pair();
            let direction: (u32, u32) = rng.next_pair();
            self.rng = rng.0;
            self.specular = false;
            self.phase = Phase::AtDiffuse;
            let color: Option<Centi3> = if mat_id == CHECKERED {
                None
            } else {
                Some(mat.albedo)
            };
            PathAction::Diffuse { color, light, direction }
        } else if mat.kind == METAL {
            let (a, b) = rng.next_pair();
            let c: u32 = rng.next_u32();
            self.rng = rng.0;
            self.specular = true;
            self.phase = Phase::AtMetal;
            PathAction::Metal { albedo: mat.albedo, fuzz: mat.param, shake: (a, b, c) }
        } else {
            let draw: u32 = rng.next_u32();
            self.rng = rng.0;
            self.specular = true;
            self.phase = Phase::AtGlass;
            PathAction::Glass { index: mat.param, invert: front, draw }
        }
    }

    /// Leaves a surface, through the roulette if the path is long.
    fn leave(&mut self, throughput: V3) -> (action: PathAction)
        requires
            old(self).wf(),
        ensures
            (*final(self), action) == old(self).leaving(throughput),
            final(self).wf(),
    {
        if self.bounce > ROULETTE_AFTER {
            proof {
                reveal_with_fuel(state_after, 2);
            }
            let chance: u32 = bits32::max(throughput.max_comp(), ROULETTE_FLOOR);
            let mut rng: Rng = Rng(self.rng);
            let draw: u32 = rng.next_u32();
            self.rng = rng.0;
            self.phase = Phase::Rolling { chance };
            PathAction::Roll { draw }
        } else {
            self.go_on()
        }
    }

    /// Turns to the next ray, if there is one left.
    fn go_on(&mut self) -> (action: PathAction)
        requires
            old(self).wf(),
        ensures
            (*final(self), action) == old(self).onward(),
            final(self).wf(),
    {
        if self.bounce + 1 < MAX_BOUNCE {
            self.bounce = self.bounce + 1;
            self.rays = self.rays + 1;
            self.phase = Phase::Tracing;
            PathAction::Trace
        } else {
            self.finish()
        }
    }
}

/// Whether light can pass between a surface and the light under these cosines.
pub open spec fn faces_light(cos_s: u32, cos_l: u32) -> bool {
    !(at_most(cos_s, ZERO) || at_most(cos_l, ZERO))
}

/// Whether a shadow ray with this result reached the light.
pub open spec fn sees_light(shadow: Option<Hit>) -> bool {
    shadow matches Some(h) && h.mat_id == MAIN_LIGHT
}

/// Whether a surface that sees the light under cosine `cos_s` can receive
/// anything from it, when the light sees the surface under cosine `cos_l`.
pub fn light_is_faced(cos_s: u32, cos_l: u32) -> (r: bool)
    ensures
        r == faces_light(cos_s, cos_l),
{
    !(bits32::le(cos_s, ZERO) || bits32::le(cos_l, ZERO))
}

/// Whether a shadow ray with this result reached the light.
pub fn light_is_seen(shadow: &Option<Hit>) -> (r: bool)
    ensures
        r == sees_light(*shadow),
{
    match shadow {
        Some(h) => h.mat_id == MAIN_LIGHT,
        None => false,
    }
}

/// Light from the ceiling is counted once. A diffuse surface samples it, so a
/// ray that arrives there next adds nothing. One that comes from the camera or
/// off a mirroring surface adds it, and any other emitter is always added.
pub proof fn main_light_is_counted_once(path: PathTracer, mat_id: u8, front: bool)
    requires
        kind_of(mat_id) == EMISSIVE,
    ensures
        path.next(PathEvent::Struck { mat_id, front }).1 is Emit <==> (path.specular || mat_id
            != MAIN_LIGHT),
        path.next(PathEvent::Struck { mat_id, front }).0.phase is Finished,
{
}

/// Only a diffuse surface makes the path lose sight of the main light, and it
/// always does.
pub proof fn specular_follows_the_surface(path: PathTracer, event: PathEvent)
    ensures
        path.next(event).0.specular == match event {
            PathEvent::Struck { mat_id, front } => if kind_of(mat_id) == DIFFUSE {
                false
            } else if kind_of(mat_id) == EMISSIVE {
                path.specular
            } else {
                true
            },
            _ => path.specular,
        },
{
}

/// The numbers that a path draws upon an event.
pub open spec fn draws_upon(path: PathTracer, event: PathEvent) -> nat {
    let (after, action) = path.next(event);
    match action {
        PathAction::Diffuse { .. } => 4,
        PathAction::Metal { .. } => 3,
        PathAction::Glass { .. } => 1,
        PathAction::Roll { .. } => 1,
        _ => 0,
    }
}

/// A path draws its numbers from one stream, in order, and none of them twice:
/// each event moves the stream on by exactly the numbers that it hands out.
pub proof fn numbers_are_drawn_once(path: PathTracer, event: PathEvent)
    ensures
        path.next(event).0.rng == state_after(path.rng, draws_upon(path, event)),
        match path.next(event).1 {
            PathAction::Diffuse { color, light, direction } => {
                &&& light == (drawn(path.rng, 0), drawn(path.rng, 1))
                &&& direction == (drawn(path.rng, 2), drawn(path.rng, 3))
            },
            PathAction::Metal { albedo, fuzz, shake } => shake == (
                drawn(path.rng, 0),
                drawn(path.rng, 1),
                drawn(path.rng, 2),
            ),
            PathAction::Glass { index, invert, draw } => draw == drawn(path.rng, 0),
            PathAction::Roll { draw } => draw == drawn(path.rng, 0),
            _ => true,
        },
{
}

/// Every event brings the end of the path nearer.
pub proof fn path_ends(path: PathTracer, event: PathEvent)
    requires
        path.wf(),
        expected(path.phase, event),
    ensures
        path.next(event).0.steps_left() < path.steps_left(),
{
}

/// A path that still has a color to weigh never divides by less than the floor.
pub proof fn chance_has_a_floor(throughput: V3)
    ensures
        at_most(ROULETTE_FLOOR, survival_chance(throughput)),
{
}

/// A path traces between one and ten rays.
pub proof fn rays_are_bounded(path: PathTracer)
    requires
        path.wf(),
    ensures
        1 <= path.rays <= MAX_BOUNCE,
{
}

/// A path that is rolled for goes on just when the roll is not above the chance,
/// and its color weight is then divided by that chance, whatever the roll was.
pub proof fn survivors_are_weighed_by_their_chance(path: PathTracer, chance: u32, roll: u32)
    requires
        path.phase == (Phase::Rolling { chance }),
    ensures
        ({
            let (after, action) = path.next(PathEvent::Rolled { roll });
            &&& less(chance, roll) ==> action is Finish && after.phase is Finished
            &&& !less(chance, roll) ==> action == (PathAction::Weigh { chance })
                && after.phase is Weighting
            &&& after.rng == path.rng && after.bounce == path.bounce && after.rays == path.rays
            &&& after.specular == path.specular
        }),
{
}

/// Whether an event has a path leave a surface with a color weight.
pub open spec fn leaves_with(event: PathEvent, throughput: V3) -> bool {
    ||| event == (PathEvent::Scattered { throughput })
    ||| event matches PathEvent::Mirrored { along, throughput: t } && t == throughput && !less(
        along,
        0,
    )
}

/// From its sixth surface on a path that leaves one is rolled for, with a chance
/// that is the largest entry of its color weight, or a twentieth if that is more.
/// What a survivor is divided by is that chance: it is never below a twentieth,
/// and does not depend on the roll.
pub proof fn long_paths_are_rolled_for(
    path: PathTracer,
    event: PathEvent,
    throughput: V3,
    roll: u32,
    other: u32,
)
    requires
        5 <= path.bounce < 10,
        leaves_with(event, throughput),
    ensures
        ({
            let (rolling, first) = path.next(event);
            let (after, action) = rolling.next(PathEvent::Rolled { roll });
            let (_, again) = rolling.next(PathEvent::Rolled { roll: other });
            &&& first is Roll && rolling.phase is Rolling
            &&& action matches PathAction::Weigh { chance } ==> {
                &&& chance == 0x3d4c_cccd || chance == throughput.x || chance == throughput.y
                    || chance == throughput.z
                &&& at_most(0x3d4c_cccd, chance)
                &&& !bits32::is_nan(throughput.x) ==> at_most(throughput.x, chance)
                &&& !bits32::is_nan(throughput.y) ==> at_most(throughput.y, chance)
                &&& !bits32::is_nan(throughput.z) ==> at_most(throughput.z, chance)
                &&& !less(chance, roll)
                &&& again matches PathAction::Weigh { chance: c } ==> c == chance
            }
            &&& !(action is Weigh) ==> action is Finish
            &&& at_most(roll, 0x3d4c_cccd) ==> action is Weigh
        }),
{
}

/// Up to its fifth surface a path that leaves one is not rolled for: its next ray
/// is traced.
pub proof fn short_paths_go_on(path: PathTracer, event: PathEvent, throughput: V3)
    requires
        path.bounce < 5,
        path.rays < u32::MAX,
        leaves_with(event, throughput),
    ensures
        ({
            let (after, action) = path.next(event);
            &&& action is Trace
            &&& after.phase is Tracing
            &&& after.bounce == path.bounce + 1
            &&& after.rays == path.rays + 1
            &&& after.rng == path.rng && after.specular == path.specular
        }),
{
}

/// A path whose color weight has been divided traces its next ray, but for that
/// of the tenth surface, which ends.
pub proof fn weighed_paths_go_on(path: PathTracer)
    requires
        path.wf(),
        path.phase is Weighting,
    ensures
        ({
            let (after, action) = path.next(PathEvent::Weighted);
            &&& path.bounce < 9 ==> action is Trace && after.phase is Tracing && after.bounce
                == path.bounce + 1 && after.rays == path.rays + 1
            &&& path.bounce == 9 ==> action is Finish && after.phase is Finished && after.rays
                == 10
            &&& after.rng == path.rng && after.specular == path.specular
        }),
{
}

/// A ray that a mirror sends into itself, or that leaves the scene, ends its path
/// without light.
pub proof fn lost_rays_end_the_path(path: PathTracer, along: u32, throughput: V3)
    ensures
        less(along, 0) ==> path.next(PathEvent::Mirrored { along, throughput }).1 is Finish
            && path.next(PathEvent::Mirrored { along, throughput }).0.phase is Finished,
        path.next(PathEvent::Escaped).1 is Finish,
        path.next(PathEvent::Escaped).0.phase is Finished,
{
}

/// Glass reflects a ray that it cannot bend, and any other just when the roll is
/// below the reflectance; it bends the rest.
pub proof fn glass_reflects_or_bends(path: PathTracer, bend: u32, reflectance: u32, roll: u32)
    ensures
        ({
            let (after, action) = path.next(PathEvent::Measured { bend, reflectance, roll });
            &&& action matches PathAction::Bend { reflect } && (reflect <==> less(0x3f80_0000, bend)
                || less(roll, reflectance))
            &&& after.phase is Bending
            &&& after.rng == path.rng && after.bounce == path.bounce && after.rays == path.rays
        }),
{
}

/// What a surface does with a ray is what it is made of: it scatters the ray with
/// its color (the checkered floor with that of the place), mirrors it with its
/// color and fuzz, lets it through with its index (inverted from the front), or
/// gives off its own light.
pub proof fn surfaces_act_as_their_material(path: PathTracer, mat_id: u8, front: bool)
    ensures
        ({
            let (after, action) = path.next(PathEvent::Struck { mat_id, front });
            &&& after.bounce == path.bounce && after.rays == path.rays
            &&& kind_of(mat_id) == 0 ==> {
                &&& after.phase is AtDiffuse && !after.specular
                &&& action matches PathAction::Diffuse { color, light, direction } && (if mat_id
                    == 9 {
                    color is None
                } else {
                    color == Some(albedo_of(mat_id))
                })
            }
            &&& kind_of(mat_id) == 1 ==> {
                &&& after.phase is AtMetal && after.specular
                &&& action matches PathAction::Metal { albedo, fuzz, shake } && albedo == albedo_of(
                    mat_id,
                ) && fuzz == param_of(mat_id)
            }
            &&& kind_of(mat_id) == 2 ==> {
                &&& after.phase is AtGlass && after.specular
                &&& action matches PathAction::Glass { index, invert, draw } && index == param_of(
                    mat_id,
                ) && invert == front
            }
            &&& kind_of(mat_id) == 3 ==> {
                &&& after.phase is Finished
                &&& path.specular || mat_id != 3 ==> action == (PathAction::Emit { mat_id })
                &&& !path.specular && mat_id == 3 ==> action is Finish
            }
        }),
{
}

/// A path starts with its first ray on the way, in full view of the light, and
/// with its own stream of numbers.
pub proof fn paths_start_at_the_camera(rng: u32)
    ensures
        PathTracer::fresh(rng).rng == rng,
        PathTracer::fresh(rng).bounce == 0,
        PathTracer::fresh(rng).rays == 1,
        PathTracer::fresh(rng).specular,
        PathTracer::fresh(rng).phase is Tracing,
{
}

/// Light passes between a surface and the light just when both cosines are above
/// zero, and reaches a surface just when what a ray from there meets is the main
/// light.
pub proof fn light_needs_a_free_way(cos_s: u32, cos_l: u32, shadow: Option<Hit>)
    requires
        !bits32::is_nan(cos_s) && !bits32::is_nan(cos_l),
    ensures
        faces_light(cos_s, cos_l) <==> less(0, cos_s) && less(0, cos_l),
        sees_light(shadow) <==> shadow is Some && shadow.unwrap().mat_id == 3,
{
}

} // verus!
