//! The scene: its primitives, and the search for the nearest one along a ray.

use vstd::prelude::*;
use crate::bits32::{self, at_most, is_nan, less};
use crate::ray_tracer::intersect::{
    box_face, face_forward, facing, first_exit, from_front, hit_box, hit_quad, hit_sphere, last_entry, outside_unit,
    quad_is_hit, sphere_root, tighter_limit_on_a_box, tighter_limit_on_a_quad,
    tighter_limit_only_rules_out, EPS, INF, PARALLEL,
};
use crate::ray_tracer::materials::MAIN_LIGHT;
use crate::ray_tracer::units::{centi3, Centi3, V3};

verus! {

/// Half the width of the room, in hundredths.
pub const ROOM_HALF_W: i32 = 420;

/// Half the depth of the room, in hundredths.
pub const ROOM_HALF_D: i32 = 300;

/// The height of the room, in hundredths.
pub const ROOM_H: i32 = 560;

/// The number of primitives in the scene.
pub const PRIMITIVES: usize = 14;

/// A primitive's geometry, in hundredths.
#[derive(Clone, Copy, PartialEq, Eq, Structural, Debug)]
pub enum Shape {
    /// A parallelogram with a corner and two edges.
    Quad { corner: Centi3, u: Centi3, v: Centi3 },
    /// A sphere.
    Sphere { center: Centi3, radius: i32 },
    /// A box along the axes.
    Block { min: Centi3, max: Centi3 },
}

/// A shape and what it is made of.
#[derive(Clone, Copy, PartialEq, Eq, Structural, Debug)]
pub struct Primitive {
    pub shape: Shape,
    pub mat_id: u8,
}

/// What the geometry of a primitive and a ray amounts to, in single-precision
/// patterns.
#[derive(Clone, Copy, PartialEq, Eq, Structural, Debug)]
pub enum Reading {
    /// A parallelogram: the cosine towards its plane, the distance of the plane,
    /// and the place along the two edges.
    Plane { denom: u32, t: u32, alpha: u32, beta: u32 },
    /// A sphere: the discriminant of the quadratic and its two roots.
    Roots { disc: u32, near: u32, far: u32 },
    /// A box: where the ray crosses the lower and the upper planes, and its
    /// direction.
    Slabs { t0: V3, t1: V3, d: V3 },
}

/// Where a ray meets a primitive.
#[derive(Clone, Copy, PartialEq, Eq, Debug)]
pub struct Contact {
    /// The number of the primitive.
    pub primitive: usize,
    pub t: u32,
    /// The normal of the face of a box.
    pub face: Option<V3>,
}

/// The surface at a contact: its outward normal, and the cosine between that and
/// the ray.
#[derive(Clone, Copy, PartialEq, Eq, Structural, Debug)]
pub struct Surface {
    pub outward: V3,
    pub along: u32,
}

/// What a ray hits: the distance, the normal turned against the ray, whether the
/// ray comes from the front, and the material.
#[derive(Clone, Copy, PartialEq, Eq, Structural, Debug)]
pub struct Hit {
    pub t: u32,
    pub normal: V3,
    pub front: bool,
    pub mat_id: u8,
}

/// The materials of the primitives, in the order in which they are tried.
pub open spec fn mat_at(i: int) -> u8 {
    seq![9u8, 10, 11, 1, 2, 3, 5, 4, 8, 6, 7, 16, 14, 15][i]
}

/// A parallelogram.
pub open spec fn quad(corner: Centi3, u: Centi3, v: Centi3) -> Shape {
    Shape::Quad { corner, u, v }
}

/// A sphere.
pub open spec fn sphere(center: Centi3, radius: i32) -> Shape {
    Shape::Sphere { center, radius }
}

/// The shapes of the primitives, in the same order: floor, ceiling, back, left
/// and right wall, the light, six spheres and two boxes.
pub open spec fn shape_at(i: int) -> Shape {
    let across = centi3(840, 0, 0);
    let deep = centi3(0, 0, 600);
    let high = centi3(0, 560, 0);
    if i == 0 {
        quad(centi3(-420, 0, -300), across, deep)
    } else if i == 1 {
        quad(centi3(-420, 560, -300), across, deep)
    } else if i == 2 {
        quad(centi3(-420, 0, -300), across, high)
    } else if i == 3 {
        quad(centi3(-420, 0, -300), deep, high)
    } else if i == 4 {
        quad(centi3(420, 0, -300), deep, high)
    } else if i == 5 {
        quad(centi3(-130, 558, -90), centi3(260, 0, 0), centi3(0, 0, 180))
    } else if i == 6 {
        sphere(centi3(150, 100, 20), 100)
    } else if i == 7 {
        sphere(centi3(-180, 80, -40), 80)
    } else if i == 8 {
        sphere(centi3(270, 42, -160), 42)
    } else if i == 9 {
        sphere(centi3(-150, 55, 150), 55)
    } else if i == 10 {
        sphere(centi3(20, 35, 190), 35)
    } else if i == 11 {
        sphere(centi3(-300, 30, 140), 30)
    } else if i == 12 {
        Shape::Block { min: centi3(-320, 0, -240), max: centi3(-240, 220, -160) }
    } else {
        Shape::Block { min: centi3(200, 0, 140), max: centi3(280, 50, 220) }
    }
}

/// The triple with the given entries.
fn c3(x: i32, y: i32, z: i32) -> (r: Centi3)
    ensures
        r == centi3(x as int, y as int, z as int),
{
    Centi3 { x, y, z }
}

/// The `i`th primitive of the scene.
pub fn primitive(i: usize) -> (r: Primitive)
    requires
        i < PRIMITIVES,
    ensures
        r.shape == shape_at(i as int),
        r.mat_id == mat_at(i as int),
{
    let across: Centi3 = c3(2 * ROOM_HALF_W, 0, 0);
    let deep: Centi3 = c3(0, 0, 2 * ROOM_HALF_D);
    let high: Centi3 = c3(0, ROOM_H, 0);
    let back_left: Centi3 = c3(-ROOM_HALF_W, 0, -ROOM_HALF_D);
    match i {
        0 => Primitive {
            shape: Shape::Quad { corner: back_left, u: across, v: deep },
            mat_id: 9,
        },
        1 => Primitive {
            shape: Shape::Quad {
                corner: c3(-ROOM_HALF_W, ROOM_H, -ROOM_HALF_D),
                u: across,
                v: deep,
            },
            mat_id: 10,
        },
        2 => Primitive {
            shape: Shape::Quad { corner: back_left, u: across, v: high },
            mat_id: 11,
        },
        3 => Primitive { shape: Shape::Quad { corner: back_left, u: deep, v: high }, mat_id: 1 },
        4 => Primitive {
            shape: Shape::Quad {
                corner: c3(ROOM_HALF_W, 0, -ROOM_HALF_D),
                u: deep,
                v: high,
            },
            mat_id: 2,
        },
        5 => Primitive {
            shape: Shape::Quad {
                corner: c3(-130, ROOM_H - 2, -90),
                u: c3(260, 0, 0),
                v: c3(0, 0, 180),
            },
            mat_id: MAIN_LIGHT,
        },
        6 => Primitive {
            shape: Shape::Sphere { center: c3(150, 100, 20), radius: 100 },
            mat_id: 5,
        },
        7 => Primitive {
            shape: Shape::Sphere { center: c3(-180, 80, -40), radius: 80 },
            mat_id: 4,
        },
        8 => Primitive {
            shape: Shape::Sphere { center: c3(270, 42, -160), radius: 42 },
            mat_id: 8,
        },
        9 => Primitive {
            shape: Shape::Sphere { center: c3(-150, 55, 150), radius: 55 },
            mat_id: 6,
        },
        10 => Primitive {
            shape: Shape::Sphere { center: c3(20, 35, 190), radius: 35 },
            mat_id: 7,
        },
        11 => Primitive {
            shape: Shape::Sphere { center: c3(-300, 30, 140), radius: 30 },
            mat_id: 16,
        },
        12 => Primitive {
            shape: Shape::Block { min: c3(-320, 0, -240), max: c3(-240, 220, -160) },
            mat_id: 14,
        },
        _ => Primitive {
            shape: Shape::Block { min: c3(200, 0, 140), max: c3(280, 50, 220) },
            mat_id: 15,
        },
    }
}

/// Where a primitive with this reading is hit, up to `t_max`: the distance, and
/// the normal of a box's face.
pub open spec fn reached(reading: Reading, t_max: u32) -> Option<(u32, Option<V3>)> {
    match reading {
        Reading::Plane { denom, t, alpha, beta } => if quad_is_hit(denom, t, alpha, beta, t_max) {
            Some((t, None))
        } else {
            None
        },
        Reading::Roots { disc, near, far } => match sphere_root(disc, near, far, t_max) {
            Some(t) => Some((t, None)),
            None => None,
        },
        Reading::Slabs { t0, t1, d } => match box_face(t0, t1, d, t_max) {
            Some((t, n)) => Some((t, Some(n))),
            None => None,
        },
    }
}

/// The distance of a contact; the far limit when there is none.
pub open spec fn distance(contact: Option<Contact>) -> u32 {
    match contact {
        Some(c) => c.t,
        None => INF,
    }
}

/// The nearest contact with the first primitives, given their readings. Each of
/// them is asked only for what is no farther than the nearest contact so far.
pub open spec fn nearest(readings: Seq<Reading>) -> Option<Contact>
    decreases readings.len(),
{
    if readings.len() == 0 {
        None
    } else {
        let before = nearest(readings.drop_last());
        match reached(readings.last(), distance(before)) {
            Some((t, face)) => if less(t, distance(before)) {
                Some(Contact { primitive: (readings.len() - 1) as usize, t, face })
            } else {
                before
            },
            None => before,
        }
    }
}

/// Whether `read` may give these readings of the primitives.
pub open spec fn may_read<R: Fn(usize) -> Reading>(read: R, readings: Seq<Reading>) -> bool {
    forall|i: int|
        0 <= i < readings.len() ==> call_ensures(read, (i as usize,), #[trigger] readings[i])
}

/// The hit at a contact with this surface.
pub open spec fn hit_at(c: Contact, s: Surface) -> Hit {
    Hit {
        t: c.t,
        normal: facing(s.outward, s.along),
        front: from_front(s.along),
        mat_id: mat_at(c.primitive as int),
    }
}

/// Whether `h` is the hit at a contact whose surface `survey` may give.
pub open spec fn may_hit<S: Fn(Contact) -> Surface>(survey: S, c: Contact, h: Hit) -> bool {
    exists|s: Surface| #[trigger] call_ensures(survey, (c,), s) && h == hit_at(c, s)
}

/// Decides where a primitive is hit.
fn reach(reading: Reading, t_max: u32) -> (r: Option<(u32, Option<V3>)>)
    ensures
        r == reached(reading, t_max),
{
    match reading {
        Reading::Plane { denom, t, alpha, beta } => {
            match hit_quad(denom, t, alpha, beta, t_max) {
                Some(_) => Some((t, None)),
                None => None,
            }
        },
        Reading::Roots { disc, near, far } => {
            match hit_sphere(disc, near, far, t_max) {
                Some(t) => Some((t, None)),
                None => None,
            }
        },
        Reading::Slabs { t0, t1, d } => {
            match hit_box(t0, t1, d, t_max) {
                Some((t, n)) => Some((t, Some(n))),
                None => None,
            }
        },
    }
}

/// Finds the nearest hit in the scene. `read` works out the geometry of a
/// primitive, by its number, and the ray; `survey` works out the surface where
/// the ray meets it.
pub fn trace_scene<R: Fn(usize) -> Reading, S: Fn(Contact) -> Surface>(
    read: R,
    survey: S,
) -> (r: Option<Hit>)
    requires
        forall|i: usize| i < PRIMITIVES ==> call_requires(read, (i,)),
        forall|c: Contact| c.primitive < PRIMITIVES ==> call_requires(survey, (c,)),
    ensures
        exists|readings: Seq<Reading>|
            {
                &&& readings.len() == PRIMITIVES
                &&& #[trigger] may_read(read, readings)
                &&& match (r, nearest(readings)) {
                    (Some(h), Some(c)) => may_hit(survey, c, h),
                    (None, None) => true,
                    _ => false,
                }
            },
{
    let mut limit: u32 = INF;
    let mut found: Option<Contact> = None;
    let ghost mut readings: Seq<Reading> = Seq::empty();
    let mut i: usize = 0;
    while i < PRIMITIVES
        invariant
            i <= PRIMITIVES,
            readings.len() == i,
            limit == distance(found),
            found == nearest(readings),
            found matches Some(c) ==> c.primitive < PRIMITIVES,
            may_read(read, readings),
            forall|i: usize| i < PRIMITIVES ==> call_requires(read, (i,)),
        decreases PRIMITIVES - i,
    {
        let reading: Reading = read(i);
        let ghost before = readings;
        proof {
            readings = before.push(reading);
            assert(readings.drop_last() =~= before);
        }
        if let Some((t, face)) = reach(reading, limit) {
            if bits32::lt(t, limit) {
                limit = t;
                found = Some(Contact { primitive: i, t, face });
            }
        }
        i += 1;
    }
    match found {
        Some(c) => {
            let s: Surface = survey(c);
            let (normal, front) = face_forward(s.outward, s.along);
            let h: Hit = Hit { t: c.t, normal, front, mat_id: primitive(c.primitive).mat_id };
            assert(may_hit(survey, c, h));
            Some(h)
        },
        None => None,
    }
}

/// Whether a ray meets a primitive with this reading at distance `t`, near or
/// far.
pub open spec fn meets(reading: Reading, t: u32) -> bool {
    match reading {
        Reading::Plane { denom, t: at, alpha, beta } => {
            &&& !less(bits32::unsigned(denom), PARALLEL)
            &&& t == at
            &&& !outside_unit(alpha)
            &&& !outside_unit(beta)
        },
        Reading::Roots { disc, near, far } => !less(disc, bits32::ZERO) && (t == near || t == far),
        Reading::Slabs { t0, t1, d } => {
            let enter = last_entry(t0.lower(t1));
            let leave = first_exit(t0.upper(t1));
            !less(leave, enter) && (t == enter || t == leave)
        },
    }
}

/// Whether the distances in a reading are numbers, wherever they matter, and the
/// roots of a sphere are in their order.
pub open spec fn orderly(reading: Reading) -> bool {
    match reading {
        Reading::Plane { denom, t, .. } => less(bits32::unsigned(denom), PARALLEL) || !is_nan(t),
        Reading::Roots { disc, near, far } => less(disc, bits32::ZERO) || at_most(near, far),
        Reading::Slabs { t0, t1, d } => !is_nan(last_entry(t0.lower(t1))) && !is_nan(
            first_exit(t0.upper(t1)),
        ),
    }
}

/// Within a limit the first meeting that is not too near is reached, if there is
/// one.
pub proof fn first_meeting_is_reached(reading: Reading, t_max: u32)
    requires
        orderly(reading),
        !is_nan(t_max),
    ensures
        match reached(reading, t_max) {
            Some((t, face)) => {
                &&& meets(reading, t)
                &&& at_most(EPS, t)
                &&& at_most(t, t_max)
                &&& forall|u: u32| #[trigger] meets(reading, u) && at_most(EPS, u) ==> at_most(t, u)
            },
            None => forall|u: u32|
                #[trigger] meets(reading, u) && at_most(EPS, u) ==> less(t_max, u),
        },
{
}

/// What the scene search finds is the nearest hit. Without one, no primitive is
/// met between the near and the far limit. With one, a primitive is met there;
/// none is met nearer, and none of those that were tried before it is met as
/// near.
pub proof fn nearest_is_nearest(readings: Seq<Reading>)
    requires
        forall|i: int| 0 <= i < readings.len() ==> orderly(#[trigger] readings[i]),
        readings.len() <= PRIMITIVES,
    ensures
        match nearest(readings) {
            Some(c) => {
                &&& c.primitive < readings.len()
                &&& meets(readings[c.primitive as int], c.t)
                &&& at_most(EPS, c.t)
                &&& less(c.t, INF)
                &&& forall|i: int, u: u32|
                    0 <= i < readings.len() && #[trigger] meets(readings[i], u) && at_most(EPS, u)
                        ==> at_most(c.t, u) && (i < c.primitive ==> less(c.t, u))
            },
            None => forall|i: int, u: u32|
                0 <= i < readings.len() && #[trigger] meets(readings[i], u) && at_most(EPS, u)
                    ==> !less(u, INF),
        },
    decreases readings.len(),
{
    if readings.len() > 0 {
        let rest = readings.drop_last();
        let last = readings.len() - 1;
        assert forall|i: int| 0 <= i < last implies orderly(#[trigger] rest[i]) by {
            assert(orderly(readings[i]));
        }
        nearest_is_nearest(rest);
        let before = nearest(rest);
        assert(orderly(readings[last]));
        first_meeting_is_reached(readings[last], distance(before));
        assert forall|i: int, u: u32|
            0 <= i < last && #[trigger] meets(readings[i], u) && at_most(EPS, u) implies !less(
            u,
            distance(before),
        ) && (before matches Some(c) ==> i < c.primitive ==> less(c.t, u)) by {
            assert(meets(rest[i], u));
        }
    }
}

/// The nearest contact with the first primitives, when each of them is asked for
/// everything up to the far limit.
pub open spec fn nearest_of_all(readings: Seq<Reading>) -> Option<Contact>
    decreases readings.len(),
{
    if readings.len() == 0 {
        None
    } else {
        let before = nearest_of_all(readings.drop_last());
        match reached(readings.last(), INF) {
            Some((t, face)) => if less(t, distance(before)) {
                Some(Contact { primitive: (readings.len() - 1) as usize, t, face })
            } else {
                before
            },
            None => before,
        }
    }
}

/// A tighter limit only rules a hit out.
proof fn tighter_limit_on_a_reading(reading: Reading, t_max: u32)
    requires
        orderly(reading),
        at_most(t_max, INF),
    ensures
        match reached(reading, INF) {
            Some((t, face)) => reached(reading, t_max) == if less(t_max, t) {
                None::<(u32, Option<V3>)>
            } else {
                Some((t, face))
            },
            None => reached(reading, t_max) is None,
        },
{
    match reading {
        Reading::Plane { denom, t, alpha, beta } => {
            tighter_limit_on_a_quad(denom, t, alpha, beta, INF, t_max);
        },
        Reading::Roots { disc, near, far } => {
            if !less(disc, bits32::ZERO) {
                tighter_limit_only_rules_out(disc, near, far, INF, t_max);
            }
        },
        Reading::Slabs { t0, t1, d } => {
            tighter_limit_on_a_box(t0, t1, d, INF, t_max);
        },
    }
}

/// To ask only for what is no farther than the nearest hit so far does not
/// change what is found.
pub proof fn limits_do_not_matter(readings: Seq<Reading>)
    requires
        forall|i: int| 0 <= i < readings.len() ==> orderly(#[trigger] readings[i]),
        readings.len() <= PRIMITIVES,
    ensures
        nearest(readings) == nearest_of_all(readings),
    decreases readings.len(),
{
    if readings.len() > 0 {
        let rest = readings.drop_last();
        assert forall|i: int| 0 <= i < rest.len() implies orderly(#[trigger] rest[i]) by {
            assert(orderly(readings[i]));
        }
        limits_do_not_matter(rest);
        nearest_is_nearest(rest);
        assert(orderly(readings[readings.len() - 1]));
        tighter_limit_on_a_reading(readings.last(), distance(nearest(rest)));
    }
}

/// The normal of a hit looks against the ray: the cosine between the two, which
/// changes its sign with the normal, is not above zero.
pub proof fn normal_faces_the_ray(c: Contact, s: Surface)
    requires
        !is_nan(s.along),
    ensures
        ({
            let turned = if hit_at(c, s).front {
                s.along
            } else {
                bits32::flipped(s.along)
            };
            at_most(turned, bits32::ZERO)
        }),
        hit_at(c, s).normal == s.outward || hit_at(c, s).normal == s.outward.reversed(),
{
}

/// The contact that is found is the one that its own primitive gives: the far
/// limit in place of the nearest hit so far would give the same distance and the
/// same face.
pub proof fn contact_is_its_primitives(readings: Seq<Reading>)
    requires
        forall|i: int| 0 <= i < readings.len() ==> orderly(#[trigger] readings[i]),
        readings.len() <= PRIMITIVES,
        nearest(readings) is Some,
    ensures
        nearest(readings) matches Some(c) && c.primitive < readings.len() && match readings[c.primitive as int] {
            Reading::Plane { denom, t, alpha, beta } => {
                &&& quad_is_hit(denom, t, alpha, beta, 0x60ad_78ec)
                &&& c.t == t
                &&& c.face is None
            },
            Reading::Roots { disc, near, far } => {
                &&& sphere_root(disc, near, far, 0x60ad_78ec) == Some(c.t)
                &&& c.face is None
            },
            Reading::Slabs { t0, t1, d } => c.face matches Some(n) && box_face(
                t0,
                t1,
                d,
                0x60ad_78ec,
            ) == Some((c.t, n)),
        },
    decreases readings.len(),
{
    limits_do_not_matter(readings);
    let rest = readings.drop_last();
    let last = readings.len() - 1;
    assert forall|i: int| 0 <= i < rest.len() implies orderly(#[trigger] rest[i]) by {
        assert(orderly(readings[i]));
    }
    limits_do_not_matter(rest);
    let c = nearest(readings).unwrap();
    if nearest(readings) == nearest(rest) {
        contact_is_its_primitives(rest);
        assert(readings[c.primitive as int] == rest[c.primitive as int]);
    } else {
        assert(c.primitive == last);
    }
}

/// A hit is where its contact is, on the material of its primitive. Its normal is
/// the outward one if the ray runs against that, and the opposite one otherwise.
pub proof fn hit_describes_its_contact(c: Contact, s: Surface)
    ensures
        hit_at(c, s).t == c.t,
        hit_at(c, s).mat_id == mat_at(c.primitive as int),
        hit_at(c, s).front <==> less(s.along, 0),
        hit_at(c, s).front ==> hit_at(c, s).normal == s.outward,
        !hit_at(c, s).front ==> hit_at(c, s).normal.reversed() == s.outward,
{
}

/// The fourteen primitives in their order: a checkered floor, ceiling and back
/// wall, two colored side walls, the main light, spheres of glass, gold, steel,
/// blue, ocher and a glowing one, a metal pillar and an orange riser. The walls
/// and the light are parallelograms along the axes, and the room is closed.
pub proof fn scene_is_furnished(i: int)
    requires
        0 <= i < PRIMITIVES,
    ensures
        PRIMITIVES == 14,
        i < 6 <==> shape_at(i) is Quad,
        6 <= i < 12 <==> shape_at(i) is Sphere,
        12 <= i <==> shape_at(i) is Block,
        mat_at(0) == 9 && mat_at(1) == 10 && mat_at(2) == 11 && mat_at(3) == 1 && mat_at(4) == 2,
        mat_at(i) == 3 <==> i == 5,
        mat_at(6) == 5 && mat_at(7) == 4 && mat_at(8) == 8 && mat_at(9) == 6 && mat_at(10) == 7,
        mat_at(11) == 16 && mat_at(12) == 14 && mat_at(13) == 15,
        shape_at(i) matches Shape::Sphere { center, radius } ==> center.y == radius && radius > 0,
        shape_at(i) matches Shape::Block { min, max } ==> min.y == 0 && min.x < max.x && min.z < max.z
            && max.y > 0 && max.x - min.x == 80 && max.z - min.z == 80,
{
}

/// The room is closed at the back, at both sides, below and above: 8.4 wide, 6
/// deep and 5.6 high, around the origin. The light hangs two hundredths below the
/// ceiling.
pub proof fn room_is_closed()
    ensures
        shape_at(0) matches Shape::Quad { corner: floor, u: across, v: deep } && {
            &&& floor.x == -420 && floor.y == 0 && floor.z == -300
            &&& across.x == -2 * floor.x && across.y == 0 && across.z == 0
            &&& deep.x == 0 && deep.y == 0 && deep.z == -2 * floor.z
            &&& shape_at(1) matches Shape::Quad { corner, u, v } && u == across && v == deep
                && corner.x == floor.x && corner.y == 560 && corner.z == floor.z
            &&& shape_at(2) matches Shape::Quad { corner, u, v } && u == across && corner == floor
                && v.x == 0 && v.y == 560 && v.z == 0
            &&& shape_at(3) matches Shape::Quad { corner, u, v } && u == deep && corner == floor
                && v.x == 0 && v.y == 560 && v.z == 0
            &&& shape_at(4) matches Shape::Quad { corner, u, v } && u == deep && corner.x == -floor.x
                && corner.y == 0 && corner.z == floor.z && v.x == 0 && v.y == 560 && v.z == 0
            &&& shape_at(5) matches Shape::Quad { corner, u, v } && corner.y == 560 - 2
                && corner.x == -130 && corner.z == -90 && u.x == 260 && u.y == 0 && u.z == 0
                && v.x == 0 && v.y == 0 && v.z == 180
        },
{
}

} // verus!
