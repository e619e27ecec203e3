//! Which intersections of a ray with a surface count.
//!
//! The caller evaluates the geometry; the functions here take the bit patterns
//! of what it found and decide whether, where and on which side the ray hits.

use vstd::prelude::*;
use crate::bits32::{self, at_most, flipped, greater, is_nan, less, lesser, same, sign_unit, unsigned, ONE, ZERO};
use crate::ray_tracer::units::V3;

verus! {

/// Hits nearer than this distance (a thousandth) are not counted.
pub const EPS: u32 = 0x3a83_126f;

/// A distance (1e20) beyond anything in the scene.
pub const INF: u32 = 0x60ad_78ec;

/// A ray this parallel to a plane (1e-8) does not meet it.
pub const PARALLEL: u32 = 0x322b_cc77;

/// A direction this close to vertical (0.99) needs another helper axis.
pub const NEARLY_VERTICAL: u32 = 0x3f7d_70a4;

/// Whether distance `t` is neither too near nor beyond `t_max`.
pub open spec fn within_reach(t: u32, t_max: u32) -> bool {
    !less(t, EPS) && !less(t_max, t)
}

/// The distance at which a sphere is hit, given the discriminant of the
/// quadratic and its two roots.
pub open spec fn sphere_root(disc: u32, near: u32, far: u32, t_max: u32) -> Option<u32> {
    if less(disc, ZERO) {
        None
    } else if within_reach(near, t_max) {
        Some(near)
    } else if within_reach(far, t_max) {
        Some(far)
    } else {
        None
    }
}

/// Whether `a` is below zero or above one.
pub open spec fn outside_unit(a: u32) -> bool {
    less(a, ZERO) || less(ONE, a)
}

/// Whether a ray hits a parallelogram: `denom` is the cosine towards its plane,
/// `t` the distance of the plane, `alpha` and `beta` the place along its edges.
pub open spec fn quad_is_hit(denom: u32, t: u32, alpha: u32, beta: u32, t_max: u32) -> bool {
    &&& !less(unsigned(denom), PARALLEL)
    &&& within_reach(t, t_max)
    &&& !outside_unit(alpha)
    &&& !outside_unit(beta)
}

/// Whether a ray that hits a parallelogram comes from the front; nothing if it
/// misses.
pub open spec fn quad_side(denom: u32, t: u32, alpha: u32, beta: u32, t_max: u32) -> Option<bool> {
    if quad_is_hit(denom, t, alpha, beta, t_max) {
        Some(less(denom, ZERO))
    } else {
        None
    }
}

/// Where a ray enters the last of the three slabs.
pub open spec fn last_entry(small: V3) -> u32 {
    greater(greater(small.x, small.y), small.z)
}

/// Where a ray leaves the first of the three slabs.
pub open spec fn first_exit(big: V3) -> u32 {
    lesser(lesser(big.x, big.y), big.z)
}

/// A vector along the first axis whose entry `t` is among those of `at`, with
/// the sign that `along` has there.
pub open spec fn axis_normal(t: u32, at: V3, along: V3) -> V3 {
    if same(t, at.x) {
        V3 { x: sign_unit(along.x), y: ZERO, z: ZERO }
    } else if same(t, at.y) {
        V3 { x: ZERO, y: sign_unit(along.y), z: ZERO }
    } else {
        V3 { x: ZERO, y: ZERO, z: sign_unit(along.z) }
    }
}

/// A vector along the first axis whose entry `t` is among those of `at`,
/// against the sign that `along` has there.
pub open spec fn axis_normal_against(t: u32, at: V3, along: V3) -> V3 {
    if same(t, at.x) {
        V3 { x: flipped(sign_unit(along.x)), y: ZERO, z: ZERO }
    } else if same(t, at.y) {
        V3 { x: ZERO, y: flipped(sign_unit(along.y)), z: ZERO }
    } else {
        V3 { x: ZERO, y: ZERO, z: flipped(sign_unit(along.z)) }
    }
}

/// Where a ray in direction `d` hits a box, given where it crosses the lower
/// (`t0`) and upper (`t1`) planes: the distance and the normal of the face,
/// which looks against the ray on entry and along it on exit.
pub open spec fn box_face(t0: V3, t1: V3, d: V3, t_max: u32) -> Option<(u32, V3)> {
    let small = t0.lower(t1);
    let big = t0.upper(t1);
    let tn = last_entry(small);
    let tf = first_exit(big);
    if less(tf, tn) || less(tf, EPS) {
        None
    } else if less(tn, EPS) {
        if within_reach(tf, t_max) {
            Some((tf, axis_normal(tf, big, d)))
        } else {
            None
        }
    } else if within_reach(tn, t_max) {
        Some((tn, axis_normal_against(tn, small, d)))
    } else {
        None
    }
}

/// Whether distance `t` counts.
fn reachable(t: u32, t_max: u32) -> (r: bool)
    ensures
        r == within_reach(t, t_max),
{
    !bits32::lt(t, EPS) && !bits32::lt(t_max, t)
}

/// Decides at which distance, if at all, a ray hits a sphere.
pub fn hit_sphere(disc: u32, near: u32, far: u32, t_max: u32) -> (r: Option<u32>)
    ensures
        r == sphere_root(disc, near, far, t_max),
{
    if bits32::lt(disc, ZERO) {
        return None;
    }
    let mut t: u32 = near;
    if !reachable(t, t_max) {
        t = far;
        if !reachable(t, t_max) {
            return None;
        }
    }
    Some(t)
}

/// Decides whether a ray hits a parallelogram, and if so whether from the
/// front.
pub fn hit_quad(denom: u32, t: u32, alpha: u32, beta: u32, t_max: u32) -> (r: Option<bool>)
    ensures
        r == quad_side(denom, t, alpha, beta, t_max),
{
    if bits32::lt(bits32::abs(denom), PARALLEL) {
        return None;
    }
    if !reachable(t, t_max) {
        return None;
    }
    if bits32::lt(alpha, ZERO) || bits32::lt(ONE, alpha) || bits32::lt(beta, ZERO) || bits32::lt(
        ONE,
        beta,
    ) {
        return None;
    }
    Some(bits32::lt(denom, ZERO))
}

/// Decides where a ray hits a box.
pub fn hit_box(t0: V3, t1: V3, d: V3, t_max: u32) -> (r: Option<(u32, V3)>)
    ensures
        r == box_face(t0, t1, d, t_max),
{
    let small: V3 = t0.min(t1);
    let big: V3 = t0.max(t1);
    let tn: u32 = bits32::max(bits32::max(small.x, small.y), small.z);
    let tf: u32 = bits32::min(bits32::min(big.x, big.y), big.z);
    if bits32::lt(tf, tn) || bits32::lt(tf, EPS) {
        return None;
    }
    let on_far: bool = bits32::lt(tn, EPS);
    let t: u32 = if on_far {
        tf
    } else {
        tn
    };
    if !reachable(t, t_max) {
        return None;
    }
    let normal: V3 = if !on_far {
        if bits32::eq(tn, small.x) {
            V3::new(bits32::neg(bits32::signum(d.x)), ZERO, ZERO)
        } else if bits32::eq(tn, small.y) {
            V3::new(ZERO, bits32::neg(bits32::signum(d.y)), ZERO)
        } else {
            V3::new(ZERO, ZERO, bits32::neg(bits32::signum(d.z)))
        }
    } else if bits32::eq(tf, big.x) {
        V3::new(bits32::signum(d.x), ZERO, ZERO)
    } else if bits32::eq(tf, big.y) {
        V3::new(ZERO, bits32::signum(d.y), ZERO)
    } else {
        V3::new(ZERO, ZERO, bits32::signum(d.z))
    };
    Some((t, normal))
}

/// Whether a ray whose cosine with the outward normal is `along` comes from the
/// front.
pub open spec fn from_front(along: u32) -> bool {
    less(along, ZERO)
}

/// The normal turned against a ray whose cosine with it is `along`.
pub open spec fn facing(normal: V3, along: u32) -> V3 {
    if from_front(along) {
        normal
    } else {
        normal.reversed()
    }
}

/// Whether a tangent frame around a normal with vertical entry `ny` starts from
/// the x axis.
pub open spec fn starts_from_x(ny: u32) -> bool {
    less(NEARLY_VERTICAL, unsigned(ny))
}

/// Turns a normal against the ray. `along` is the cosine between the two; the
/// result tells whether the ray comes from the front.
pub fn face_forward(normal: V3, along: u32) -> (r: (V3, bool))
    ensures
        r.1 == from_front(along),
        r.0 == facing(normal, along),
{
    if bits32::lt(along, ZERO) {
        (normal, true)
    } else {
        (normal.neg(), false)
    }
}

/// Whether the tangent frame around a normal with vertical entry `ny` starts
/// from the x axis; from the y axis otherwise.
pub fn frame_from_x(ny: u32) -> (r: bool)
    ensures
        r == starts_from_x(ny),
{
    bits32::lt(NEARLY_VERTICAL, bits32::abs(ny))
}

/// A distance at which a sphere is hit, if it is a number, is neither too near
/// nor beyond the limit.
pub proof fn accepted_root_is_within_reach(disc: u32, near: u32, far: u32, t_max: u32)
    requires
        !is_nan(t_max),
        sphere_root(disc, near, far, t_max) matches Some(t) && !is_nan(t),
    ensures
        sphere_root(disc, near, far, t_max) matches Some(t) && at_most(EPS, t) && at_most(t, t_max),
{
}

/// A tighter limit never changes where a sphere is hit: it only rules the hit
/// out when it is beyond.
pub proof fn tighter_limit_only_rules_out(disc: u32, near: u32, far: u32, t_max: u32, tighter: u32)
    requires
        at_most(near, far),
        at_most(tighter, t_max),
    ensures
        match sphere_root(disc, near, far, t_max) {
            Some(t) => sphere_root(disc, near, far, tighter) == if less(tighter, t) {
                None::<u32>
            } else {
                Some(t)
            },
            None => sphere_root(disc, near, far, tighter) is None,
        },
{
}

/// A hit on a parallelogram is neither too near nor beyond the limit, and lies
/// between the edges.
pub proof fn quad_hit_is_inside(denom: u32, t: u32, alpha: u32, beta: u32, t_max: u32)
    requires
        quad_is_hit(denom, t, alpha, beta, t_max),
        !is_nan(t) && !is_nan(alpha) && !is_nan(beta) && !is_nan(t_max),
    ensures
        at_most(EPS, t) && at_most(t, t_max),
        at_most(ZERO, alpha) && at_most(alpha, ONE),
        at_most(ZERO, beta) && at_most(beta, ONE),
{
}

/// A tighter limit only rules a hit on a parallelogram out.
pub proof fn tighter_limit_on_a_quad(
    denom: u32,
    t: u32,
    alpha: u32,
    beta: u32,
    t_max: u32,
    tighter: u32,
)
    requires
        at_most(tighter, t_max),
    ensures
        quad_is_hit(denom, t, alpha, beta, tighter) == (quad_is_hit(denom, t, alpha, beta, t_max)
            && !less(tighter, t)),
{
}

/// A tighter limit only rules a hit on a box out.
pub proof fn tighter_limit_on_a_box(t0: V3, t1: V3, d: V3, t_max: u32, tighter: u32)
    requires
        at_most(tighter, t_max),
    ensures
        match box_face(t0, t1, d, t_max) {
            Some((t, n)) => box_face(t0, t1, d, tighter) == if less(tighter, t) {
                None::<(u32, V3)>
            } else {
                Some((t, n))
            },
            None => box_face(t0, t1, d, tighter) is None,
        },
{
}

/// The hit on a box lies in all three slabs at once: after the ray has entered
/// each of them and before it has left any.
pub proof fn box_hit_is_in_every_slab(t0: V3, t1: V3, d: V3, t_max: u32)
    requires
        !is_nan(t0.x) && !is_nan(t0.y) && !is_nan(t0.z),
        !is_nan(t1.x) && !is_nan(t1.y) && !is_nan(t1.z),
        !is_nan(t_max),
    ensures
        box_face(t0, t1, d, t_max) matches Some((t, n)) ==> {
            &&& at_most(EPS, t) && at_most(t, t_max)
            &&& at_most(lesser(t0.x, t1.x), t) && at_most(t, greater(t0.x, t1.x))
            &&& at_most(lesser(t0.y, t1.y), t) && at_most(t, greater(t0.y, t1.y))
            &&& at_most(lesser(t0.z, t1.z), t) && at_most(t, greater(t0.z, t1.z))
        },
{
}

/// A ray that comes to a box from outside hits the face whose slab it enters
/// last, exactly where it enters it: the normal lies along that axis (the first
/// of those that are entered there), with the opposite sign of the direction,
/// and is zero on the other two.
pub proof fn box_is_entered_through_a_face(t0: V3, t1: V3, d: V3, t_max: u32)
    requires
        !is_nan(d.x) && !is_nan(d.y) && !is_nan(d.z),
        box_face(t0, t1, d, t_max) matches Some((t, n)) && !is_nan(t),
        at_most(0x3a83_126f, lesser(t0.x, t1.x)) || at_most(0x3a83_126f, lesser(t0.y, t1.y)) || at_most(
            0x3a83_126f,
            lesser(t0.z, t1.z),
        ),
    ensures
        box_face(t0, t1, d, t_max) matches Some((t, n)) && {
            let x = lesser(t0.x, t1.x);
            let y = lesser(t0.y, t1.y);
            let z = lesser(t0.z, t1.z);
            ||| same(t, x) && n.y == 0 && n.z == 0 && n.x == (if d.x < 0x8000_0000 {
                0xbf80_0000u32
            } else {
                0x3f80_0000u32
            })
            ||| same(t, y) && !same(t, x) && n.x == 0 && n.z == 0 && n.y == (if d.y < 0x8000_0000 {
                0xbf80_0000u32
            } else {
                0x3f80_0000u32
            })
            ||| same(t, z) && !same(t, x) && !same(t, y) && n.x == 0 && n.y == 0 && n.z == (if d.z < 0x8000_0000 {
                0xbf80_0000u32
            } else {
                0x3f80_0000u32
            })
        },
{
}

/// A ray that starts within a box, or so near that the entry does not count, hits
/// the face whose slab it leaves first, exactly where it leaves it: the normal
/// lies along that axis (the first of those that are left there), with the sign
/// of the direction, and is zero on the other two.
pub proof fn box_is_left_through_a_face(t0: V3, t1: V3, d: V3, t_max: u32)
    requires
        !is_nan(d.x) && !is_nan(d.y) && !is_nan(d.z),
        box_face(t0, t1, d, t_max) matches Some((t, n)) && !is_nan(t),
        !at_most(0x3a83_126f, lesser(t0.x, t1.x)) && !at_most(0x3a83_126f, lesser(t0.y, t1.y))
            && !at_most(0x3a83_126f, lesser(t0.z, t1.z)),
    ensures
        box_face(t0, t1, d, t_max) matches Some((t, n)) && {
            let x = greater(t0.x, t1.x);
            let y = greater(t0.y, t1.y);
            let z = greater(t0.z, t1.z);
            ||| same(t, x) && n.y == 0 && n.z == 0 && n.x == (if d.x < 0x8000_0000 {
                0x3f80_0000u32
            } else {
                0xbf80_0000u32
            })
            ||| same(t, y) && !same(t, x) && n.x == 0 && n.z == 0 && n.y == (if d.y < 0x8000_0000 {
                0x3f80_0000u32
            } else {
                0xbf80_0000u32
            })
            ||| same(t, z) && !same(t, x) && !same(t, y) && n.x == 0 && n.y == 0 && n.z == (if d.z < 0x8000_0000 {
                0x3f80_0000u32
            } else {
                0xbf80_0000u32
            })
        },
{
}

/// The distance of a box is that of the last entry if that is a thousandth or
/// more, and that of the first exit otherwise.
pub proof fn box_distance_is_entry_or_exit(t0: V3, t1: V3, d: V3, t_max: u32)
    requires
        !is_nan(lesser(t0.x, t1.x)) && !is_nan(lesser(t0.y, t1.y)) && !is_nan(lesser(t0.z, t1.z)),
        box_face(t0, t1, d, t_max) is Some,
    ensures
        box_face(t0, t1, d, t_max) matches Some((t, n)) && {
            &&& !less(t, 0x3a83_126f) && !less(t_max, t)
            &&& at_most(lesser(t0.x, t1.x), t) && at_most(t, greater(t0.x, t1.x))
            &&& at_most(lesser(t0.y, t1.y), t) && at_most(t, greater(t0.y, t1.y))
            &&& at_most(lesser(t0.z, t1.z), t) && at_most(t, greater(t0.z, t1.z))
        },
        box_face(t0, t1, d, t_max) matches Some((t, n)) && if at_most(0x3a83_126f, lesser(t0.x, t1.x)) || at_most(0x3a83_126f, lesser(t0.y, t1.y)) || at_most(
            0x3a83_126f,
            lesser(t0.z, t1.z),
        ) {
            ||| same(t, lesser(t0.x, t1.x))
            ||| same(t, lesser(t0.y, t1.y))
            ||| same(t, lesser(t0.z, t1.z))
        } else {
            ||| same(t, greater(t0.x, t1.x))
            ||| same(t, greater(t0.y, t1.y))
            ||| same(t, greater(t0.z, t1.z))
        },
{
}

/// A box is missed only if the ray leaves one slab before it enters another,
/// leaves one of them too near, or would hit the box beyond the limit.
pub proof fn box_is_missed_for_a_reason(t0: V3, t1: V3, d: V3, t_max: u32)
    requires
        !is_nan(lesser(t0.x, t1.x)) && !is_nan(lesser(t0.y, t1.y)) && !is_nan(lesser(t0.z, t1.z)),
        box_face(t0, t1, d, t_max) is None,
    ensures
        ({
            let (ex, ey, ez) = (lesser(t0.x, t1.x), lesser(t0.y, t1.y), lesser(t0.z, t1.z));
            let (lx, ly, lz) = (greater(t0.x, t1.x), greater(t0.y, t1.y), greater(t0.z, t1.z));
            ||| less(lx, ey) || less(lx, ez) || less(ly, ex) || less(ly, ez) || less(lz, ex) || less(
                lz,
                ey,
            )
            ||| less(lx, 0x3a83_126f) || less(ly, 0x3a83_126f) || less(lz, 0x3a83_126f)
            ||| less(t_max, ex) || less(t_max, ey) || less(t_max, ez)
            ||| !at_most(0x3a83_126f, ex) && !at_most(0x3a83_126f, ey)
                && !at_most(0x3a83_126f, ez) && less(t_max, lx) && less(t_max, ly) && less(t_max, lz)
        }),
{
}

/// A sphere is hit where its quadratic has roots, at the smaller one if that is
/// at least a thousandth and within the limit, and else at the larger one under
/// the same condition.
pub proof fn sphere_is_hit_at_its_first_root(disc: u32, near: u32, far: u32, t_max: u32)
    requires
        !is_nan(disc) && !is_nan(near) && !is_nan(far) && !is_nan(t_max),
    ensures
        match sphere_root(disc, near, far, t_max) {
            Some(t) => {
                &&& at_most(0, disc)
                &&& at_most(0x3a83_126f, t) && at_most(t, t_max)
                &&& t == near || (t == far && (less(near, 0x3a83_126f) || less(t_max, near)))
            },
            None => less(disc, 0) || {
                &&& less(near, 0x3a83_126f) || less(t_max, near)
                &&& less(far, 0x3a83_126f) || less(t_max, far)
            },
        },
{
}

/// A parallelogram is hit just when the ray is not parallel to it, its plane is
/// at least a thousandth away and within the limit, and the place along each
/// edge is from zero to one.
pub proof fn quad_is_hit_between_its_edges(denom: u32, t: u32, alpha: u32, beta: u32, t_max: u32)
    requires
        !is_nan(denom) && !is_nan(t) && !is_nan(alpha) && !is_nan(beta) && !is_nan(t_max),
    ensures
        quad_is_hit(denom, t, alpha, beta, t_max) <==> {
            &&& at_most(0x322b_cc77, denom) || at_most(denom, 0xb22b_cc77)
            &&& at_most(0x3a83_126f, t) && at_most(t, t_max)
            &&& at_most(0, alpha) && at_most(alpha, 0x3f80_0000)
            &&& at_most(0, beta) && at_most(beta, 0x3f80_0000)
        },
{
}

/// A ray comes from the front just when it runs against the outward normal. The
/// normal stays then, and changes the sign of all three entries otherwise.
pub proof fn normals_are_turned(normal: V3, along: u32)
    ensures
        from_front(along) <==> 0x8000_0000 < along <= 0xff80_0000,
        from_front(along) ==> facing(normal, along) == normal,
        !from_front(along) ==> {
            let n = facing(normal, along);
            &&& n.x - normal.x == 0x8000_0000 || normal.x - n.x == 0x8000_0000
            &&& n.y - normal.y == 0x8000_0000 || normal.y - n.y == 0x8000_0000
            &&& n.z - normal.z == 0x8000_0000 || normal.z - n.z == 0x8000_0000
        },
{
}

/// A tangent frame starts from the x axis just around normals that look almost
/// straight up or down: whose vertical entry is above 0.99 or below -0.99.
pub proof fn frame_avoids_the_vertical(ny: u32)
    ensures
        starts_from_x(ny) <==> less(0x3f7d_70a4, ny) || less(ny, 0xbf7d_70a4),
{
}

/// The roots of a sphere are tried in order: without roots it is missed, the first
/// one counts unless it is below a thousandth or beyond the limit, then the second
/// under the same condition.
pub proof fn roots_are_tried_in_order(disc: u32, near: u32, far: u32, t_max: u32)
    ensures
        less(disc, 0) ==> sphere_root(disc, near, far, t_max) is None,
        !less(disc, 0) && !less(near, 0x3a83_126f) && !less(t_max, near) ==> sphere_root(
            disc,
            near,
            far,
            t_max,
        ) == Some(near),
        !less(disc, 0) && (less(near, 0x3a83_126f) || less(t_max, near)) && !less(far, 0x3a83_126f)
            && !less(t_max, far) ==> sphere_root(disc, near, far, t_max) == Some(far),
        (less(near, 0x3a83_126f) || less(t_max, near)) && (less(far, 0x3a83_126f) || less(
            t_max,
            far,
        )) ==> sphere_root(disc, near, far, t_max) is None,
{
}

/// A parallelogram is missed just when the ray runs along it, its plane is too
/// near or beyond the limit, or the place is off one of the edges. One that is hit
/// is hit from the front just when the ray runs against its normal.
pub proof fn quad_is_missed_for_a_reason(denom: u32, t: u32, alpha: u32, beta: u32, t_max: u32)
    ensures
        quad_side(denom, t, alpha, beta, t_max) is None <==> {
            ||| less(denom, 0x322b_cc77) && less(0xb22b_cc77, denom)
            ||| less(t, 0x3a83_126f) || less(t_max, t)
            ||| less(alpha, 0) || less(0x3f80_0000, alpha)
            ||| less(beta, 0) || less(0x3f80_0000, beta)
        },
        quad_side(denom, t, alpha, beta, t_max) matches Some(front) ==> (front <==> less(denom, 0)),
        quad_side(denom, t, alpha, beta, t_max) is Some <==> quad_is_hit(
            denom,
            t,
            alpha,
            beta,
            t_max,
        ),
{
}

} // verus!
