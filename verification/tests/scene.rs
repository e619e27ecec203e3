use std::cell::RefCell;

use canvas_demos::bits32;
use canvas_demos::ray_tracer::intersect::{
    face_forward, frame_from_x, hit_box, hit_quad, hit_sphere, EPS, INF, NEARLY_VERTICAL, PARALLEL,
};
use canvas_demos::ray_tracer::materials::{
    checker, get_mat, DIELECTRIC, DIFFUSE, EMISSIVE, METAL,
};
use canvas_demos::ray_tracer::scene::{
    primitive, trace_scene, Contact, Hit, Reading, Shape, Surface, PRIMITIVES,
};
use canvas_demos::ray_tracer::units::{has_direction, Centi3, FIREFLY_CLAMP, NULL_LENGTH, V3};

fn b(v: f32) -> u32 {
    v.to_bits()
}

fn v3(x: f32, y: f32, z: f32) -> V3 {
    V3::new(b(x), b(y), b(z))
}

fn centi(v: i32) -> f32 {
    v as f32 / 100.0
}

/// A parallelogram that is hit in its middle at a distance.
fn plane(t: f32) -> Reading {
    Reading::Plane { denom: b(-1.0), t: b(t), alpha: b(0.5), beta: b(0.5) }
}

/// A primitive that the ray passes by.
fn missed() -> Reading {
    Reading::Roots { disc: b(-1.0), near: b(f32::NAN), far: b(f32::NAN) }
}

/// What is hit when every surface looks up and against the ray.
fn trace(read: impl Fn(usize) -> Reading) -> Option<Hit> {
    trace_scene(read, |_: Contact| Surface { outward: v3(0.0, 1.0, 0.0), along: b(-0.5) })
}

#[test]
fn constants_of_the_geometry() {
    assert_eq!(EPS, b(0.001));
    assert_eq!(INF, b(1e20));
    assert_eq!(PARALLEL, b(1e-8));
    assert_eq!(NEARLY_VERTICAL, b(0.99));
    assert_eq!(FIREFLY_CLAMP, b(16.0));
    assert_eq!(NULL_LENGTH, b(1e-10));
}

#[test]
fn material_table() {
    let table: [(u8, u8, [f32; 3], f32); 18] = [
        (0, DIFFUSE, [0.73, 0.73, 0.73], 0.0),
        (1, DIFFUSE, [0.63, 0.26, 0.30], 0.0),
        (2, DIFFUSE, [0.20, 0.52, 0.50], 0.0),
        (3, EMISSIVE, [1.0, 0.9, 0.7], 18.0),
        (4, METAL, [0.95, 0.78, 0.45], 0.02),
        (5, DIELECTRIC, [1.0, 1.0, 1.0], 1.5),
        (6, DIFFUSE, [0.16, 0.28, 0.72], 0.0),
        (7, DIFFUSE, [0.72, 0.55, 0.22], 0.0),
        (8, METAL, [0.86, 0.88, 0.95], 0.14),
        (9, DIFFUSE, [0.5, 0.5, 0.5], 0.0),
        (10, DIFFUSE, [0.78, 0.78, 0.80], 0.0),
        (11, DIFFUSE, [0.70, 0.72, 0.75], 0.0),
        (12, DIFFUSE, [0.74, 0.34, 0.62], 0.0),
        (13, DIFFUSE, [0.80, 0.71, 0.28], 0.0),
        (14, METAL, [0.80, 0.84, 0.92], 0.04),
        (15, DIFFUSE, [0.80, 0.45, 0.20], 0.0),
        (16, EMISSIVE, [1.0, 0.55, 0.22], 6.0),
        (17, DIFFUSE, [0.5, 0.5, 0.5], 0.0),
    ];
    for (id, kind, albedo, param) in table {
        let mat = get_mat(id);
        assert_eq!(mat.kind, kind, "kind of {}", id);
        assert_eq!(centi(mat.albedo.x), albedo[0], "red of {}", id);
        assert_eq!(centi(mat.albedo.y), albedo[1], "green of {}", id);
        assert_eq!(centi(mat.albedo.z), albedo[2], "blue of {}", id);
        assert_eq!(centi(mat.param), param, "parameter of {}", id);
    }
    assert_eq!(get_mat(255), get_mat(17));
}

#[test]
fn no_material_is_brighter_than_white() {
    for id in 0..=255u8 {
        let c = get_mat(id).albedo;
        assert!(c.x <= 100 && c.y <= 100 && c.z <= 100);
        assert!(c.x >= 0 && c.y >= 0 && c.z >= 0);
    }
}

#[test]
fn checkered_floor() {
    let light = Centi3 { x: 82, y: 80, z: 76 };
    let dark = Centi3 { x: 18, y: 19, z: 22 };
    assert_eq!(checker(0, 0), light);
    assert_eq!(checker(0, 1), dark);
    assert_eq!(checker(1, 0), dark);
    assert_eq!(checker(-1, 0), dark);
    assert_eq!(checker(-1, -1), light);
    assert_eq!(checker(i32::MAX, 1), light);
    assert_eq!(checker(i32::MIN, -1), dark);
    assert_eq!(centi(82), 0.82);
    assert_eq!(centi(19), 0.19);
}

#[test]
fn scene_primitives() {
    const HW: f32 = 4.2;
    const HD: f32 = 3.0;
    const RH: f32 = 5.6;
    let quads: [([f32; 3], [f32; 3], [f32; 3], u8); 6] = [
        ([-HW, 0.0, -HD], [2.0 * HW, 0.0, 0.0], [0.0, 0.0, 2.0 * HD], 9),
        ([-HW, RH, -HD], [2.0 * HW, 0.0, 0.0], [0.0, 0.0, 2.0 * HD], 10),
        ([-HW, 0.0, -HD], [2.0 * HW, 0.0, 0.0], [0.0, RH, 0.0], 11),
        ([-HW, 0.0, -HD], [0.0, 0.0, 2.0 * HD], [0.0, RH, 0.0], 1),
        ([HW, 0.0, -HD], [0.0, 0.0, 2.0 * HD], [0.0, RH, 0.0], 2),
        ([-1.3, RH - 0.02, -0.9], [2.6, 0.0, 0.0], [0.0, 0.0, 1.8], 3),
    ];
    let floats = |c: Centi3| [centi(c.x), centi(c.y), centi(c.z)];
    for (i, (corner, u, v, mat)) in quads.into_iter().enumerate() {
        let p = primitive(i);
        assert_eq!(p.mat_id, mat);
        match p.shape {
            Shape::Quad { corner: c, u: pu, v: pv } => {
                assert_eq!((floats(c), floats(pu), floats(pv)), (corner, u, v));
            }
            _ => panic!("{} is no quad", i),
        }
    }
    let spheres: [([f32; 3], f32, u8); 6] = [
        ([1.5, 1.0, 0.2], 1.0, 5),
        ([-1.8, 0.8, -0.4], 0.8, 4),
        ([2.7, 0.42, -1.6], 0.42, 8),
        ([-1.5, 0.55, 1.5], 0.55, 6),
        ([0.2, 0.35, 1.9], 0.35, 7),
        ([-3.0, 0.3, 1.4], 0.3, 16),
    ];
    for (i, (center, radius, mat)) in spheres.into_iter().enumerate() {
        let p = primitive(6 + i);
        assert_eq!(p.mat_id, mat);
        match p.shape {
            Shape::Sphere { center: c, radius: r } => {
                assert_eq!((floats(c), centi(r)), (center, radius));
            }
            _ => panic!("{} is no sphere", 6 + i),
        }
    }
    let blocks: [([f32; 3], [f32; 3], u8); 2] = [
        ([-3.2, 0.0, -2.4], [-2.4, 2.2, -1.6], 14),
        ([2.0, 0.0, 1.4], [2.8, 0.5, 2.2], 15),
    ];
    for (i, (low, high, mat)) in blocks.into_iter().enumerate() {
        let p = primitive(12 + i);
        assert_eq!(p.mat_id, mat);
        match p.shape {
            Shape::Block { min, max } => assert_eq!((floats(min), floats(max)), (low, high)),
            _ => panic!("{} is no box", 12 + i),
        }
    }
    assert_eq!(PRIMITIVES, 14);
}

#[test]
fn sphere_roots() {
    assert_eq!(hit_sphere(b(-0.1), b(1.0), b(2.0), INF), None);
    assert_eq!(hit_sphere(b(1.0), b(1.0), b(2.0), INF), Some(b(1.0)));
    assert_eq!(hit_sphere(b(1.0), b(-1.0), b(2.0), INF), Some(b(2.0)));
    assert_eq!(hit_sphere(b(1.0), b(0.0005), b(0.0009), INF), None);
    assert_eq!(hit_sphere(b(1.0), b(3.0), b(4.0), b(2.5)), None);
    assert_eq!(hit_sphere(b(0.0), b(2.5), b(2.5), b(2.5)), Some(b(2.5)));
    assert_eq!(hit_sphere(b(-0.0), EPS, b(2.5), INF), Some(EPS));
}

#[test]
fn quad_hits() {
    assert_eq!(hit_quad(b(-1.0), b(2.0), b(0.5), b(0.5), INF), Some(true));
    assert_eq!(hit_quad(b(1.0), b(2.0), b(0.0), b(1.0), INF), Some(false));
    assert_eq!(hit_quad(b(-1e-9), b(2.0), b(0.5), b(0.5), INF), None);
    assert_eq!(hit_quad(b(-1.0), b(0.0), b(0.5), b(0.5), INF), None);
    assert_eq!(hit_quad(b(-1.0), b(2.0), b(0.5), b(0.5), b(1.0)), None);
    assert_eq!(hit_quad(b(-1.0), b(2.0), b(-0.1), b(0.5), INF), None);
    assert_eq!(hit_quad(b(-1.0), b(2.0), b(1.1), b(0.5), INF), None);
    assert_eq!(hit_quad(b(-1.0), b(2.0), b(0.5), b(-0.1), INF), None);
    assert_eq!(hit_quad(b(-1.0), b(2.0), b(0.5), b(1.1), INF), None);
}

#[test]
fn box_hits() {
    let inf = f32::INFINITY;
    // A ray along z from in front of the box: only the z planes are crossed.
    let t0 = v3(-inf, -inf, 2.0);
    let t1 = v3(inf, inf, 3.0);
    let d = v3(0.0, 0.0, 1.0);
    assert_eq!(hit_box(t0, t1, d, INF), Some((b(2.0), v3(0.0, 0.0, -1.0))));
    assert_eq!(hit_box(t0, t1, d, b(1.5)), None);
    // From within, the exit counts.
    let t0 = v3(-inf, -inf, -1.0);
    let t1 = v3(inf, inf, 1.0);
    assert_eq!(hit_box(t0, t1, d, INF), Some((b(1.0), v3(0.0, 0.0, 1.0))));
    // Behind the ray.
    let t1 = v3(inf, inf, -0.5);
    assert_eq!(hit_box(t0, t1, d, INF), None);
    // Past the box: x is left before y is entered.
    let t0 = v3(1.0, 3.0, 0.0);
    let t1 = v3(2.0, 4.0, 5.0);
    assert_eq!(hit_box(t0, t1, v3(1.0, 1.0, 1.0), INF), None);
    // The first axis among equal entries, against the ray.
    let t0 = v3(1.0, 1.0, 0.0);
    let t1 = v3(2.0, 4.0, 5.0);
    assert_eq!(
        hit_box(t0, t1, v3(-1.0, 1.0, 1.0), INF),
        Some((b(1.0), V3::new(b(1.0), b(0.0), b(0.0))))
    );
    let t0 = v3(0.5, 1.0, 0.0);
    assert_eq!(
        hit_box(t0, t1, v3(1.0, 1.0, 1.0), INF),
        Some((b(1.0), V3::new(b(0.0), b(-1.0), b(0.0))))
    );
}

#[test]
fn normals_face_the_ray() {
    let n = v3(1.0, -2.0, 0.0);
    assert_eq!(face_forward(n, b(-0.5)), (n, true));
    assert_eq!(face_forward(n, b(0.5)), (v3(-1.0, 2.0, -0.0), false));
    assert_eq!(face_forward(n, b(0.0)), (v3(-1.0, 2.0, -0.0), false));
    assert!(frame_from_x(b(1.0)));
    assert!(frame_from_x(b(-0.995)));
    assert!(!frame_from_x(b(0.99)));
    assert!(!frame_from_x(b(0.0)));
}

#[test]
fn nearest_primitive_wins() {
    let hit = trace(|i: usize| match i {
        2 => plane(5.0),
        6 => plane(3.0),
        9 => plane(4.0),
        _ => missed(),
    })
    .unwrap();
    assert_eq!(hit.t, b(3.0));
    assert_eq!(hit.mat_id, 5);
    assert!(hit.front);
    assert_eq!(hit.normal, v3(0.0, 1.0, 0.0));
}

#[test]
fn first_of_equally_near_primitives_wins() {
    assert_eq!(trace(|_: usize| plane(2.0)).unwrap().mat_id, 9);
    assert_eq!(trace(|_: usize| missed()), None);
    assert_eq!(trace(|_: usize| plane(1e20)), None);
    assert_eq!(trace(|_: usize| plane(0.0005)), None);
    assert_eq!(trace(|_: usize| plane(f32::NAN)), None);
}

#[test]
fn all_shapes_are_searched() {
    let inf = f32::INFINITY;
    let read = |i: usize| match i {
        1 => plane(9.0),
        8 => Reading::Roots { disc: b(1.0), near: b(-2.0), far: b(4.0) },
        13 => Reading::Slabs {
            t0: v3(-inf, -inf, 3.0),
            t1: v3(inf, inf, 6.0),
            d: v3(0.0, 0.0, 1.0),
        },
        _ => missed(),
    };
    let hit = trace_scene(read, |c: Contact| {
        assert_eq!(c, Contact { primitive: 13, t: b(3.0), face: Some(v3(0.0, 0.0, -1.0)) });
        Surface { outward: c.face.unwrap(), along: b(-1.0) }
    })
    .unwrap();
    assert_eq!((hit.t, hit.mat_id), (b(3.0), 15));
    // Without the box the far side of the sphere is nearest.
    let hit = trace(|i: usize| if i == 13 { missed() } else { read(i) }).unwrap();
    assert_eq!((hit.t, hit.mat_id), (b(4.0), 8));
}

#[test]
fn each_primitive_is_read_once() {
    let asked: RefCell<Vec<usize>> = RefCell::new(Vec::new());
    let surveyed: RefCell<Vec<usize>> = RefCell::new(Vec::new());
    let hit = trace_scene(
        |i: usize| {
            asked.borrow_mut().push(i);
            plane(20.0 - i as f32)
        },
        |c: Contact| {
            surveyed.borrow_mut().push(c.primitive);
            Surface { outward: v3(0.0, 1.0, 0.0), along: b(0.5) }
        },
    )
    .unwrap();
    assert_eq!(asked.into_inner(), (0..14).collect::<Vec<usize>>());
    assert_eq!(surveyed.into_inner(), vec![13]);
    assert!(!hit.front);
    assert_eq!(hit.normal, v3(-0.0, -1.0, -0.0));
}

#[test]
fn vectors_of_patterns() {
    let v = v3(2.0, -3.0, 0.5);
    assert_eq!(v.neg(), v3(-2.0, 3.0, -0.5));
    assert_eq!(v.max_comp(), b(2.0));
    assert_eq!(v3(f32::NAN, -3.0, 0.5).max_comp(), b(0.5));
    assert_eq!(v.clamp01(), v3(1.0, 0.0, 0.5));
    assert_eq!(v3(17.0, 16.0, -1.0).clamp_fireflies(), v3(16.0, 16.0, -1.0));
    assert_eq!(v3(f32::INFINITY, f32::NAN, 1.0).clamp_fireflies(), v3(16.0, 16.0, 1.0));
    assert_eq!(v.min(v3(1.0, 1.0, 1.0)), v3(1.0, -3.0, 0.5));
    assert_eq!(v.max(v3(1.0, 1.0, 1.0)), v3(2.0, 1.0, 1.0));
    assert_eq!(V3::splat(bits32::ONE), v3(1.0, 1.0, 1.0));
    assert!(has_direction(b(1e-10)));
    assert!(has_direction(b(f32::NAN)));
    assert!(!has_direction(b(1e-11)));
}

#[test]
fn limits_change_nothing() {
    let distances: [f32; 14] =
        [9.0, 7.5, 8.0, 7.5, 3.0, 12.0, 2.5, 2.5, 4.0, 1.0, 6.0, 0.5, 0.75, 0.5];
    let hit = trace(|i: usize| {
        Reading::Roots { disc: b(1.0), near: b(distances[i]), far: b(distances[i] + 1.0) }
    });
    assert_eq!(hit.unwrap().mat_id, 16);
}

#[test]
fn tighter_limits_only_rule_out() {
    let limits: [f32; 5] = [0.5, 1.0, 1.5, 2.0, 3.0];
    for limit in limits {
        let sphere = hit_sphere(b(1.0), b(1.5), b(2.5), b(limit));
        assert_eq!(sphere, if limit < 1.5 { None } else { Some(b(1.5)) });
        let quad = hit_quad(b(-1.0), b(1.5), b(0.5), b(0.5), b(limit));
        assert_eq!(quad, if limit < 1.5 { None } else { Some(true) });
        let face = hit_box(v3(1.5, 0.0, 0.0), v3(4.0, 4.0, 4.0), v3(1.0, 1.0, 1.0), b(limit));
        assert_eq!(face.map(|f| f.0), if limit < 1.5 { None } else { Some(b(1.5)) });
    }
}
