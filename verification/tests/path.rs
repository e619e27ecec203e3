use canvas_demos::ray_tracer::path::{
    light_is_faced, light_is_seen, PathAction, PathEvent, PathTracer, Phase, MAX_BOUNCE,
    ROULETTE_FLOOR,
};
use canvas_demos::ray_tracer::scene::Hit;
use canvas_demos::ray_tracer::units::{Centi3, V3};

fn b(v: f32) -> u32 {
    v.to_bits()
}

fn gray(v: f32) -> V3 {
    V3::splat(b(v))
}

fn struck(mat_id: u8) -> PathEvent {
    PathEvent::Struck { mat_id, front: true }
}

#[test]
fn path_from_the_camera_sees_the_light() {
    let mut path = PathTracer::begin(42);
    assert_eq!(path.step(struck(3)), PathAction::Emit { mat_id: 3 });
    assert_eq!(path.phase, Phase::Finished);
    assert_eq!(path.rays, 1);
    assert_eq!(path.rng, 42);
}

#[test]
fn main_light_is_not_counted_twice() {
    let mut path = PathTracer::begin(42);
    path.step(struck(0));
    path.step(PathEvent::Scattered { throughput: gray(0.7) });
    assert_eq!(path.step(struck(3)), PathAction::Finish);

    let mut path = PathTracer::begin(42);
    path.step(struck(0));
    path.step(PathEvent::Scattered { throughput: gray(0.7) });
    assert_eq!(path.step(struck(16)), PathAction::Emit { mat_id: 16 });

    // A mirror after the diffuse surface brings it back into view.
    let mut path = PathTracer::begin(42);
    path.step(struck(0));
    path.step(PathEvent::Scattered { throughput: gray(0.7) });
    path.step(struck(14));
    path.step(PathEvent::Mirrored { along: b(0.5), throughput: gray(0.5) });
    assert_eq!(path.step(struck(3)), PathAction::Emit { mat_id: 3 });
}

#[test]
fn diffuse_surface() {
    let mut path = PathTracer::begin(42);
    assert_eq!(
        path.step(struck(1)),
        PathAction::Diffuse {
            color: Some(Centi3 { x: 63, y: 26, z: 30 }),
            light: (2522215345, 1223963391),
            direction: (1180595976, 2715732808),
        }
    );
    assert!(!path.specular);
    assert_eq!(path.step(PathEvent::Scattered { throughput: gray(0.5) }), PathAction::Trace);
    assert_eq!(path.bounce, 1);
    assert_eq!(path.rays, 2);
    let mut floor = PathTracer::begin(42);
    assert!(matches!(floor.step(struck(9)), PathAction::Diffuse { color: None, .. }));
}

#[test]
fn metal_surface() {
    let mut path = PathTracer::begin(42);
    assert_eq!(
        path.step(struck(8)),
        PathAction::Metal {
            albedo: Centi3 { x: 86, y: 88, z: 95 },
            fuzz: 14,
            shake: (2522215345, 1223963391, 1180595976),
        }
    );
    let mut into = path;
    assert_eq!(
        into.step(PathEvent::Mirrored { along: b(-0.1), throughput: gray(0.9) }),
        PathAction::Finish
    );
    assert_eq!(
        path.step(PathEvent::Mirrored { along: b(0.0), throughput: gray(0.9) }),
        PathAction::Trace
    );
    assert!(path.specular);
}

#[test]
fn glass_surface() {
    let mut path = PathTracer::begin(42);
    assert_eq!(
        path.step(struck(5)),
        PathAction::Glass { index: 150, invert: true, draw: 2522215345 }
    );
    let cases: [(f32, f32, f32, bool); 4] = [
        (1.1, 0.0, 0.9, true),
        (1.0, 0.0, 0.9, false),
        (0.5, 0.9, 0.8, true),
        (0.5, 0.8, 0.8, false),
    ];
    for (bend, reflectance, roll, reflect) in cases {
        let mut p = path;
        let measured = PathEvent::Measured {
            bend: b(bend),
            reflectance: b(reflectance),
            roll: b(roll),
        };
        assert_eq!(p.step(measured), PathAction::Bend { reflect });
        assert_eq!(p.step(PathEvent::Scattered { throughput: gray(1.0) }), PathAction::Trace);
    }
    let mut back = PathTracer::begin(42);
    assert_eq!(
        back.step(PathEvent::Struck { mat_id: 5, front: false }),
        PathAction::Glass { index: 150, invert: false, draw: 2522215345 }
    );
}

#[test]
fn escaped_ray_ends_the_path() {
    let mut path = PathTracer::begin(7);
    assert_eq!(path.step(PathEvent::Escaped), PathAction::Finish);
    assert_eq!(path.phase, Phase::Finished);
}

#[test]
fn longest_path() {
    let mut path = PathTracer::begin(1);
    let mut traced: u32 = 1;
    let mut rolls: u32 = 0;
    let mut action = PathAction::Trace;
    loop {
        action = match action {
            PathAction::Trace => path.step(struck(2)),
            PathAction::Diffuse { .. } => {
                path.step(PathEvent::Scattered { throughput: gray(0.3) })
            }
            PathAction::Roll { .. } => {
                rolls += 1;
                assert_eq!(path.phase, Phase::Rolling { chance: b(0.3) });
                path.step(PathEvent::Rolled { roll: b(0.3) })
            }
            PathAction::Weigh { chance } => {
                assert_eq!(chance, b(0.3));
                path.step(PathEvent::Weighted)
            }
            PathAction::Finish => break,
            _ => panic!("unexpected"),
        };
        if action == PathAction::Trace {
            traced += 1;
        }
    }
    assert_eq!(traced, MAX_BOUNCE);
    assert_eq!(path.rays, 10);
    assert_eq!(rolls, 5);
}

#[test]
fn roulette_starts_at_the_sixth_surface() {
    let mut path = PathTracer::begin(1);
    for _ in 0..5 {
        path.step(struck(4));
        let onward = path.step(PathEvent::Mirrored { along: b(1.0), throughput: gray(0.0) });
        assert_eq!(onward, PathAction::Trace);
    }
    path.step(struck(4));
    let roll = path.step(PathEvent::Mirrored { along: b(1.0), throughput: gray(0.0) });
    assert!(matches!(roll, PathAction::Roll { .. }));
    assert_eq!(path.phase, Phase::Rolling { chance: ROULETTE_FLOOR });
    assert_eq!(ROULETTE_FLOOR, b(0.05));
    assert_eq!(path.step(PathEvent::Rolled { roll: b(0.06) }), PathAction::Finish);
}

#[test]
fn direct_light() {
    assert!(light_is_faced(b(0.1), b(0.1)));
    assert!(!light_is_faced(b(0.0), b(0.1)));
    assert!(!light_is_faced(b(0.1), b(-0.1)));
    let hit = |mat_id: u8| Some(Hit { t: b(1.0), normal: gray(0.0), front: true, mat_id });
    assert!(light_is_seen(&hit(3)));
    assert!(!light_is_seen(&hit(16)));
    assert!(!light_is_seen(&None));
}

#[test]
fn path_draws_from_one_stream() {
    let mut path = PathTracer::begin(42);
    path.step(struck(5));
    path.step(PathEvent::Measured { bend: b(2.0), reflectance: b(0.0), roll: b(0.5) });
    path.step(PathEvent::Scattered { throughput: gray(1.0) });
    assert_eq!(
        path.step(struck(8)),
        PathAction::Metal {
            albedo: Centi3 { x: 86, y: 88, z: 95 },
            fuzz: 14,
            shake: (1223963391, 1180595976, 2715732808),
        }
    );
    path.step(PathEvent::Mirrored { along: b(0.5), throughput: gray(0.5) });
    assert_eq!(
        path.step(PathEvent::Struck { mat_id: 5, front: false }),
        PathAction::Glass { index: 150, invert: false, draw: 1427904528 }
    );
}
