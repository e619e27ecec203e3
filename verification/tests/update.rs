use canvas_demos::block_breaker::game::{Game, Screen};
use canvas_demos::block_breaker::particles::Particle;
use canvas_demos::block_breaker::update::{PaddleMoves, UpdateAction, UpdateEvent, WallSums};

fn d(v: f64) -> u64 {
    v.to_bits()
}

fn game() -> Game {
    let mut g = Game::new();
    g.resize(Screen {
        width: d(960.0),
        height: d(540.0),
        scale: d(1.0),
        paddle_x: d(400.0),
        paddle_y: d(490.0),
        paddle_w: d(160.0),
        ball_r: d(10.0),
        columns: (0..10).map(|c| d(40.0 + c as f64 * 89.2)).collect(),
        brick_w: d(77.2),
        stars: Vec::new(),
        rest: (d(480.0), d(474.0)),
    });
    g
}

fn spark(life: f64) -> Particle {
    Particle { x: 0, y: 0, vx: 0, vy: 0, life: d(life), radius: d(1.0) }
}

fn moves(limit: f64) -> PaddleMoves {
    PaddleMoves { left: d(-10.0), right: d(900.0), both: d(300.0), limit: d(limit) }
}

/// The ball well within the walls.
fn sums() -> WallSums {
    WallSums {
        left_edge: d(100.0),
        right_edge: d(120.0),
        right_edge_at_left: d(20.0),
        right_stop: d(950.0),
        top_edge: d(200.0),
        top_edge_at_top: d(0.0),
        rest_x: d(480.0),
        rest_y: d(474.0),
    }
}

#[test]
fn paddle_obeys_pointer_and_keys() {
    let paddle = |set: &dyn Fn(&mut Game), limit: f64| {
        let mut g = game();
        set(&mut g);
        let action = g.update(
            UpdateAction::MeasurePaddle,
            UpdateEvent::PaddleMeasured { moves: moves(limit) },
        );
        assert_eq!(action, UpdateAction::MeasureBall);
        f64::from_bits(g.paddle_x)
    };
    assert_eq!(paddle(&|_: &mut Game| {}, 800.0), 400.0);
    assert_eq!(paddle(&|g: &mut Game| g.move_pointer(d(123.0)), 800.0), 123.0);
    assert_eq!(paddle(&|g: &mut Game| g.input_left = true, 800.0), 0.0);
    assert_eq!(paddle(&|g: &mut Game| g.input_right = true, 800.0), 800.0);
    assert_eq!(
        paddle(
            &|g: &mut Game| {
                g.input_left = true;
                g.input_right = true;
            },
            800.0
        ),
        300.0
    );
    assert_eq!(
        paddle(
            &|g: &mut Game| {
                g.input_left = true;
                g.move_pointer(d(777.0));
            },
            700.0
        ),
        700.0
    );
}

#[test]
fn ball_rests_or_flies() {
    let measured = || UpdateEvent::BallMeasured {
        rest: (d(1.0), d(2.0)),
        flight: (d(3.0), d(4.0)),
    };
    let mut g = game();
    assert_eq!(g.update(UpdateAction::MeasureBall, measured()), UpdateAction::MeasureWalls);
    assert_eq!((g.ball_x, g.ball_y), (d(1.0), d(2.0)));
    g.launch_ball(d(5.0), d(6.0));
    g.update(UpdateAction::MeasureBall, measured());
    assert_eq!((g.ball_x, g.ball_y), (d(3.0), d(4.0)));
}

#[test]
fn ball_bounces_off_the_walls() {
    let bounce = |vx: f64, vy: f64, sums: WallSums| {
        let mut g = game();
        g.launch_ball(d(vx), d(vy));
        let action = g.update(UpdateAction::MeasureWalls, UpdateEvent::WallsMeasured { sums });
        assert_eq!(action, UpdateAction::MeasureContact);
        (
            f64::from_bits(g.ball_x),
            f64::from_bits(g.ball_y),
            f64::from_bits(g.ball_vx),
            f64::from_bits(g.ball_vy),
        )
    };
    assert_eq!(bounce(-3.0, -4.0, sums()), (480.0, 474.0, -3.0, -4.0));
    let left = WallSums { left_edge: d(0.0), ..sums() };
    assert_eq!(bounce(-3.0, -4.0, left), (10.0, 474.0, 3.0, -4.0));
    let right = WallSums { right_edge: d(960.0), ..sums() };
    assert_eq!(bounce(3.0, -4.0, right), (950.0, 474.0, -3.0, -4.0));
    let top = WallSums { top_edge: d(-1.0), ..sums() };
    assert_eq!(bounce(3.0, -4.0, top), (480.0, 10.0, 3.0, 4.0));
    // A ball put at the left wall is no longer at the right one.
    let both = WallSums { left_edge: d(-1.0), right_edge: d(960.0), ..sums() };
    assert_eq!(bounce(-3.0, -4.0, both), (10.0, 474.0, 3.0, -4.0));
    // On a screen narrower than the ball the right wall has the last word.
    let narrow = WallSums { left_edge: d(-1.0), right_edge_at_left: d(960.0), ..sums() };
    assert_eq!(bounce(3.0, -4.0, narrow), (950.0, 474.0, -3.0, -4.0));
}

#[test]
fn lost_ball_costs_a_life() {
    let mut g = game();
    g.score = 500;
    g.bricks[7].alive = false;
    g.launch_ball(d(3.0), d(4.0));
    g.ball_speed = d(430.0);
    let lost = WallSums { top_edge: d(540.5), ..sums() };
    let action = g.update(UpdateAction::MeasureWalls, UpdateEvent::WallsMeasured { sums: lost });
    assert_eq!(action, UpdateAction::MoveParticles);
    assert_eq!((g.lives, g.score), (2, 500));
    assert!(!g.started && !g.bricks[7].alive);
    assert_eq!((g.ball_x, g.ball_y, g.ball_vx, g.ball_vy), (d(480.0), d(474.0), 0, 0));
    assert_eq!(g.ball_speed, d(430.0));
    g.launch_ball(d(3.0), d(4.0));
    g.update(UpdateAction::MeasureWalls, UpdateEvent::WallsMeasured { sums: lost });
    assert_eq!(g.lives, 1);
    g.launch_ball(d(3.0), d(4.0));
    g.update(UpdateAction::MeasureWalls, UpdateEvent::WallsMeasured { sums: lost });
    assert_eq!((g.lives, g.score), (3, 0));
    assert!(!g.started && g.bricks[7].alive);
    assert_eq!(g.ball_speed, d(420.0));
}

#[test]
fn ball_at_the_lower_edge_is_not_lost() {
    let mut g = game();
    let edge = WallSums { top_edge: d(540.0), ..sums() };
    let action = g.update(UpdateAction::MeasureWalls, UpdateEvent::WallsMeasured { sums: edge });
    assert_eq!(action, UpdateAction::MeasureContact);
    assert_eq!(g.lives, 3);
}

#[test]
fn paddle_catches_a_falling_ball() {
    let contact = |vy: f64, x: f64, bottom: f64| {
        let mut g = game();
        g.launch_ball(d(0.0), d(vy));
        g.ball_x = d(x);
        g.update(
            UpdateAction::MeasureContact,
            UpdateEvent::ContactMeasured {
                bottom: d(bottom),
                reach: d(510.0),
                paddle_right: d(560.0),
            },
        )
    };
    let caught = UpdateAction::MeasureRebound;
    let missed = UpdateAction::MeasureBricks;
    assert_eq!(contact(100.0, 480.0, 495.0), caught);
    assert_eq!(contact(100.0, 400.0, 490.0), caught);
    assert_eq!(contact(100.0, 560.0, 510.0), caught);
    assert_eq!(contact(-100.0, 480.0, 495.0), missed);
    assert_eq!(contact(0.0, 480.0, 495.0), missed);
    assert_eq!(contact(100.0, 399.0, 495.0), missed);
    assert_eq!(contact(100.0, 561.0, 495.0), missed);
    assert_eq!(contact(100.0, 480.0, 489.0), missed);
    assert_eq!(contact(100.0, 480.0, 511.0), missed);
}

#[test]
fn rebound_is_limited() {
    let mut g = game();
    let aim = g.update(
        UpdateAction::MeasureRebound,
        UpdateEvent::ReboundMeasured { offset: d(1.2), speed: d(100.0), floor: d(357.0) },
    );
    assert_eq!(aim, UpdateAction::Aim { offset: d(1.0), speed: d(357.0) });
    let aim = g.update(
        UpdateAction::MeasureRebound,
        UpdateEvent::ReboundMeasured { offset: d(-0.5), speed: d(400.0), floor: d(357.0) },
    );
    assert_eq!(aim, UpdateAction::Aim { offset: d(-0.5), speed: d(400.0) });
    let next = g.update(aim, UpdateEvent::Aimed { vx: d(1.0), vy: d(-2.0), y: d(479.0) });
    assert_eq!(next, UpdateAction::MeasureBricks);
    assert_eq!((g.ball_vx, g.ball_vy, g.ball_y), (d(1.0), d(-2.0), d(479.0)));
}

#[test]
fn first_standing_brick_is_hit() {
    let mut g = game();
    let near = |hits: &[usize]| -> UpdateEvent {
        let mut distances = vec![d(1e6); 60];
        for i in hits {
            distances[*i] = d(100.0);
        }
        UpdateEvent::BricksMeasured { distances, reach: d(100.0) }
    };
    let ask = UpdateAction::MeasureBricks;
    assert_eq!(g.update(ask, near(&[41, 17])), UpdateAction::MeasureImpact { brick: 17 });
    g.bricks[17].alive = false;
    assert_eq!(g.update(ask, near(&[41, 17])), UpdateAction::MeasureImpact { brick: 41 });
    assert_eq!(g.update(ask, near(&[17])), UpdateAction::MoveParticles);
    g.launch_ball(d(1.0), d(1.0));
    assert_eq!(g.update(ask, near(&[])), UpdateAction::MakeTrail);
}

#[test]
fn hit_brick_breaks_and_turns_the_ball() {
    let hit = |overlap_x: f64, overlap_y: f64| {
        let mut g = game();
        g.launch_ball(d(3.0), d(-4.0));
        let next = g.update(
            UpdateAction::MeasureImpact { brick: 5 },
            UpdateEvent::ImpactMeasured {
                overlap_x: d(overlap_x),
                overlap_y: d(overlap_y),
                boosted: d(421.26),
            },
        );
        assert_eq!(next, UpdateAction::MeasureSpeed { brick: 5 });
        assert!(!g.bricks[5].alive && g.bricks[4].alive && g.bricks[6].alive);
        assert_eq!(g.score, 100);
        assert_eq!(g.ball_speed, d(421.26));
        (f64::from_bits(g.ball_vx), f64::from_bits(g.ball_vy))
    };
    assert_eq!(hit(2.0, 3.0), (-3.0, -4.0));
    assert_eq!(hit(3.0, 2.0), (3.0, 4.0));
    assert_eq!(hit(2.0, 2.0), (3.0, 4.0));
}

#[test]
fn moving_ball_is_brought_to_speed() {
    let mut g = game();
    g.launch_ball(d(3.0), d(4.0));
    let ask = UpdateAction::MeasureSpeed { brick: 5 };
    let next = g.update(ask, UpdateEvent::SpeedMeasured { speed: d(0.0), vx: d(9.0), vy: d(9.0) });
    assert_eq!(next, UpdateAction::MakeBurst { brick: 5 });
    assert_eq!((g.ball_vx, g.ball_vy), (d(3.0), d(4.0)));
    g.update(ask, UpdateEvent::SpeedMeasured { speed: d(5.0), vx: d(6.0), vy: d(8.0) });
    assert_eq!((g.ball_vx, g.ball_vy), (d(6.0), d(8.0)));
}

#[test]
fn sparks_of_a_frame() {
    let mut g = game();
    let ask = UpdateAction::MakeBurst { brick: 5 };
    let burst = || UpdateEvent::BurstMade { burst: vec![spark(1.0); 12] };
    assert_eq!(g.update(ask, burst()), UpdateAction::MoveParticles);
    g.launch_ball(d(3.0), d(4.0));
    assert_eq!(g.update(ask, burst()), UpdateAction::MakeTrail);
    assert_eq!(g.particles.len(), 24);
    let trail = UpdateEvent::TrailMade { trail: vec![spark(0.5); 3] };
    assert_eq!(g.update(UpdateAction::MakeTrail, trail), UpdateAction::MoveParticles);
    assert_eq!(g.particles.len(), 27);
    let mut moved = g.particles.clone();
    moved[0] = spark(-0.1);
    let next = g.update(UpdateAction::MoveParticles, UpdateEvent::ParticlesMoved { moved });
    assert_eq!(next, UpdateAction::Finish);
    assert_eq!(g.particles.len(), 26);
}

#[test]
fn broken_wall_is_built_anew() {
    let mut g = game();
    g.launch_ball(d(3.0), d(4.0));
    g.score = 6000;
    g.lives = 2;
    for brick in g.bricks.iter_mut() {
        brick.alive = false;
    }
    let next = g.update(
        UpdateAction::MoveParticles,
        UpdateEvent::ParticlesMoved { moved: Vec::new() },
    );
    assert_eq!(next, UpdateAction::RaiseSpeed);
    let next = g.update(next, UpdateEvent::SpeedRaised { speed: d(445.2) });
    assert_eq!(next, UpdateAction::Finish);
    assert!(g.bricks.iter().all(|b| b.alive));
    assert!(!g.started);
    assert_eq!((g.score, g.lives), (6000, 2));
    assert_eq!(g.ball_speed, d(445.2));
    assert_eq!((g.ball_vx, g.ball_vy), (d(3.0), d(4.0)));
}

#[test]
fn whole_frame() {
    let mut g = game();
    g.launch_ball(d(30.0), d(-40.0));
    let mut asked = vec![UpdateAction::MeasurePaddle];
    loop {
        let ask = asked[asked.len() - 1];
        let event = match ask {
            UpdateAction::MeasurePaddle => UpdateEvent::PaddleMeasured { moves: moves(800.0) },
            UpdateAction::MeasureBall => UpdateEvent::BallMeasured {
                rest: (d(480.0), d(474.0)),
                flight: (d(100.0), d(320.0)),
            },
            UpdateAction::MeasureWalls => UpdateEvent::WallsMeasured { sums: sums() },
            UpdateAction::MeasureContact => UpdateEvent::ContactMeasured {
                bottom: d(330.0),
                reach: d(510.0),
                paddle_right: d(560.0),
            },
            UpdateAction::MeasureBricks => UpdateEvent::BricksMeasured {
                distances: (0..60).map(|i| if i == 50 { d(81.0) } else { d(1e4) }).collect(),
                reach: d(100.0),
            },
            UpdateAction::MeasureImpact { .. } => UpdateEvent::ImpactMeasured {
                overlap_x: d(20.0),
                overlap_y: d(1.0),
                boosted: d(421.26),
            },
            UpdateAction::MeasureSpeed { .. } => UpdateEvent::SpeedMeasured {
                speed: d(50.0),
                vx: d(252.756),
                vy: d(337.008),
            },
            UpdateAction::MakeBurst { .. } => UpdateEvent::BurstMade { burst: vec![spark(1.0); 12] },
            UpdateAction::MakeTrail => UpdateEvent::TrailMade { trail: vec![spark(0.5); 3] },
            UpdateAction::MoveParticles => UpdateEvent::ParticlesMoved {
                moved: g.particles.clone(),
            },
            UpdateAction::Finish => break,
            _ => panic!("unexpected"),
        };
        let next = g.update(ask, event);
        asked.push(next);
    }
    assert_eq!(asked.len(), 11);
    assert_eq!(g.score, 100);
    assert_eq!(g.lives, 3);
    assert_eq!(g.bricks.iter().filter(|b| b.alive).count(), 59);
    assert!(!g.bricks[50].alive);
    assert_eq!(g.particles.len(), 15);
    assert_eq!((g.ball_vx, g.ball_vy), (d(252.756), d(337.008)));
}
