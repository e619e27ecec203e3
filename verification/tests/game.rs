use canvas_demos::block_breaker::bricks::{all_broken, closest_place, layout_bricks, Brick};
use canvas_demos::block_breaker::draw::{spark_alpha, star_alpha};
use canvas_demos::block_breaker::game::{
    ball_radius, frame_time, paddle_width, screen_scale, screen_size, wall_width, Game, Screen,
};
use canvas_demos::block_breaker::particles::{
    retain_glowing, spawn_hit_particles, star_count, Particle, Star,
};

fn d(v: f64) -> u64 {
    v.to_bits()
}

fn columns(width: f64) -> (Vec<u64>, u64) {
    let w = (width - 80.0 - 12.0 * 9.0).max(200.0) / 10.0;
    ((0..10).map(|c| d(40.0 + c as f64 * (w + 12.0))).collect(), d(w))
}

fn screen(width: f64, height: f64) -> Screen {
    let (columns, brick_w) = columns(width);
    Screen {
        width: d(width),
        height: d(height),
        scale: d(1.0),
        paddle_x: d(400.0),
        paddle_y: d(height - 50.0),
        paddle_w: d(160.0),
        ball_r: d(10.0),
        columns,
        brick_w,
        stars: vec![Star { x: 1, y: 2, r: 3, phase: 4 }],
        rest: (d(480.0), d(474.0)),
    }
}

fn spark(life: f64, radius: f64) -> Particle {
    Particle { x: 0, y: 0, vx: 0, vy: 0, life: d(life), radius: d(radius) }
}

#[test]
fn new_game() {
    let g = Game::new();
    assert_eq!((g.lives, g.score), (3, 0));
    assert_eq!(g.paddle_w, d(180.0));
    assert_eq!(g.paddle_h, d(16.0));
    assert_eq!(g.ball_r, d(10.0));
    assert_eq!(g.ball_speed, d(420.0));
    assert_eq!(g.scale, d(1.0));
    assert_eq!((g.rows, g.cols), (6, 10));
    assert!(g.bricks.is_empty() && g.particles.is_empty() && g.stars.is_empty());
    assert!(g.awaits_launch());
    let (edges, w) = columns(0.0);
    assert_eq!(g.columns, edges);
    assert_eq!(g.brick_w, w);
}

#[test]
fn wall_of_bricks() {
    let (edges, w) = columns(960.0);
    let bricks = layout_bricks(&edges, w);
    assert_eq!(bricks.len(), 60);
    for row in 0..6usize {
        for col in 0..10usize {
            let brick = bricks[row * 10 + col];
            assert_eq!(brick.x, edges[col]);
            assert_eq!(brick.y as f64, 80.0 + row as f64 * 40.0);
            assert_eq!(brick.w, w);
            assert_eq!(brick.h, 28);
            assert_eq!(brick.hue as f64, 200.0 + row as f64 * 12.0 + col as f64 * 4.0);
            assert!(brick.alive);
        }
    }
}

#[test]
fn wall_is_gone_when_the_last_brick_is() {
    let (edges, w) = columns(960.0);
    let mut bricks = layout_bricks(&edges, w);
    for brick in bricks.iter_mut() {
        brick.alive = false;
    }
    assert!(all_broken(&bricks));
    bricks[59].alive = true;
    assert!(!all_broken(&bricks));
    assert!(all_broken(&Vec::<Brick>::new()));
}

#[test]
fn resized_screen() {
    let mut g = Game::new();
    g.score = 300;
    g.lives = 2;
    g.launch_ball(d(1.0), d(2.0));
    g.resize(screen(960.0, 540.0));
    assert_eq!((g.score, g.lives), (300, 2));
    assert!(g.started);
    assert_eq!((g.ball_x, g.ball_y), (d(480.0), d(474.0)));
    assert_eq!((g.ball_vx, g.ball_vy), (d(0.0), d(0.0)));
    assert_eq!(g.paddle_x, d(400.0));
    assert_eq!(g.paddle_target_x, d(400.0));
    assert_eq!(g.bricks.len(), 60);
    assert_eq!(g.stars.len(), 1);
    assert_eq!(g.height, d(540.0));
}

#[test]
fn new_start() {
    let mut g = Game::new();
    g.resize(screen(960.0, 540.0));
    g.score = 700;
    g.lives = 1;
    g.ball_speed = d(500.0);
    g.bricks[3].alive = false;
    g.launch_ball(d(1.0), d(2.0));
    g.reset_game(d(5.0), d(6.0));
    assert_eq!((g.score, g.lives), (0, 3));
    assert_eq!(g.ball_speed, d(420.0));
    assert!(g.bricks.iter().all(|b| b.alive));
    assert!(!g.started);
    assert_eq!((g.ball_x, g.ball_y, g.ball_vx, g.ball_vy), (d(5.0), d(6.0), 0, 0));
}

#[test]
fn keys_going_down() {
    for key in ["ArrowLeft", "a", "A"] {
        let mut g = Game::new();
        g.move_pointer(d(9.0));
        assert!(g.pointer_active);
        assert_eq!(g.paddle_target_x, d(9.0));
        assert!(!g.key_down(key));
        assert!(g.input_left && !g.input_right && !g.pointer_active);
        g.key_up(key);
        assert!(!g.input_left);
    }
    for key in ["ArrowRight", "d", "D"] {
        let mut g = Game::new();
        g.move_pointer(d(9.0));
        assert!(!g.key_down(key));
        assert!(g.input_right && !g.input_left && !g.pointer_active);
        g.key_up(key);
        assert!(!g.input_right);
    }
    let mut g = Game::new();
    g.move_pointer(d(9.0));
    for key in ["ArrowUp", "", "aa", "Enter", "  "] {
        assert!(!g.key_down(key));
        g.key_up(key);
        assert!(!g.input_left && !g.input_right && g.pointer_active);
    }
}

#[test]
fn space_launches_a_resting_ball() {
    let mut g = Game::new();
    assert!(g.key_down(" "));
    assert!(g.awaits_launch());
    g.launch_ball(d(3.0), d(-4.0));
    assert_eq!((g.ball_vx, g.ball_vy), (d(3.0), d(-4.0)));
    assert!(!g.awaits_launch());
    assert!(!g.key_down(" "));
}

#[test]
fn time_between_frames() {
    let mut g = Game::new();
    assert_eq!(g.tick(d(100.0)), d(100.0));
    assert_eq!(g.tick(d(116.0)), d(100.0));
    assert_eq!(g.last_time, d(116.0));
    g.pass_time(d(0.016));
    assert_eq!(g.time, d(0.016));
    assert_eq!(frame_time(d(0.016)), d(0.016));
    assert_eq!(frame_time(d(0.05)), d(0.05));
    assert_eq!(frame_time(d(0.2)), d(0.05));
    assert_eq!(frame_time(d(-1.0)), d(-1.0));
}

#[test]
fn screen_without_a_size() {
    assert_eq!(screen_size(None, None), (d(960.0), d(540.0)));
    assert_eq!(screen_size(Some(d(800.0)), None), (d(800.0), d(540.0)));
    assert_eq!(screen_size(None, Some(d(600.0))), (d(960.0), d(600.0)));
}

#[test]
fn limits_of_the_layout() {
    assert_eq!(screen_scale(d(0.5)), d(1.0));
    assert_eq!(screen_scale(d(2.0)), d(2.0));
    assert_eq!(paddle_width(d(100.0)), d(120.0));
    assert_eq!(paddle_width(d(172.8)), d(172.8));
    assert_eq!(paddle_width(d(500.0)), d(240.0));
    assert_eq!(ball_radius(d(2.0)), d(8.0));
    assert_eq!(ball_radius(d(11.5)), d(11.5));
    assert_eq!(ball_radius(d(20.0)), d(14.0));
    assert_eq!(wall_width(d(100.0)), d(200.0));
    assert_eq!(wall_width(d(772.0)), d(772.0));
    assert_eq!(star_count(3), 60);
    assert_eq!(star_count(61), 61);
    assert_eq!(closest_place(d(5.0), d(10.0), d(20.0)), d(10.0));
    assert_eq!(closest_place(d(15.0), d(10.0), d(20.0)), d(15.0));
    assert_eq!(closest_place(d(25.0), d(10.0), d(20.0)), d(20.0));
}

#[test]
fn too_many_sparks_are_thinned() {
    let burst: Vec<Particle> = (0..12).map(|i| spark(1.0, 10.0 + i as f64)).collect();
    let mut sparks: Vec<Particle> = (0..248).map(|i| spark(1.0, i as f64)).collect();
    spawn_hit_particles(&mut sparks, &burst);
    assert_eq!(sparks.len(), 260);
    spawn_hit_particles(&mut sparks, &burst);
    assert_eq!(sparks.len(), 192);
    assert_eq!(sparks[0], spark(1.0, 80.0));
    assert_eq!(sparks[180..192], burst[..]);
}

#[test]
fn sparks_go_out() {
    let sparks = vec![
        spark(0.5, 1.0),
        spark(0.0, 1.0),
        spark(-0.1, 1.0),
        spark(0.5, 0.4),
        spark(0.1, 0.41),
        spark(f64::NAN, 1.0),
    ];
    assert_eq!(retain_glowing(&sparks), vec![spark(0.5, 1.0), spark(0.1, 0.41)]);
}

#[test]
fn what_is_drawn() {
    let mut g = Game::new();
    g.resize(screen(960.0, 540.0));
    g.bricks[0].alive = false;
    g.bricks[59].alive = false;
    let drawn = g.drawn_bricks();
    assert_eq!(drawn.len(), 58);
    assert_eq!(drawn[0], g.bricks[1]);
    assert_eq!(drawn[57], g.bricks[58]);
    assert_eq!(star_alpha(d(0.1)), d(0.2));
    assert_eq!(star_alpha(d(1.1)), d(0.9));
    assert_eq!(star_alpha(d(0.5)), d(0.5));
    assert_eq!(spark_alpha(d(-0.1)), d(0.0));
    assert_eq!(spark_alpha(d(0.3)), d(0.3));
    assert_eq!(spark_alpha(d(0.7)), d(0.6));
}
