//! The state of the game, its start, and what the player does to it.

use vstd::prelude::*;
use crate::bits64::{self, clamped, greater, less, ONE, ZERO};
use crate::block_breaker::bricks::{layout_bricks, wall, Brick, COLS, ROWS};
use crate::block_breaker::particles::{Particle, Star};

verus! {

/// The lives of a new game.
pub const LIVES: i32 = 3;

/// What a brick is worth.
pub const BRICK_SCORE: i32 = 100;

/// The speed of the ball in a new game (420).
pub const FIRST_SPEED: u64 = 0x407a_4000_0000_0000;

/// The size of the paddle before the screen is known (180 by 16).
pub const PADDLE_W: u64 = 0x4066_8000_0000_0000;
pub const PADDLE_H: u64 = 0x4030_0000_0000_0000;

/// The radius of the ball before the screen is known (10).
pub const BALL_R: u64 = 0x4024_0000_0000_0000;

/// The narrowest and widest paddle (120 and 240).
pub const NARROWEST_PADDLE: u64 = 0x405e_0000_0000_0000;
pub const WIDEST_PADDLE: u64 = 0x406e_0000_0000_0000;

/// The smallest and largest radius of the ball (8 and 14).
pub const SMALLEST_BALL: u64 = 0x4020_0000_0000_0000;
pub const LARGEST_BALL: u64 = 0x402c_0000_0000_0000;

/// The size of a screen that does not tell (960 by 540).
pub const DEFAULT_WIDTH: u64 = 0x408e_0000_0000_0000;
pub const DEFAULT_HEIGHT: u64 = 0x4080_e000_0000_0000;

/// The least width of a wall, without its gaps (200).
pub const LEAST_WALL: u64 = 0x4069_0000_0000_0000;

/// The longest time that a frame accounts for, in seconds (0.05).
pub const LONGEST_FRAME: u64 = 0x3fa9_9999_9999_999a;

/// The width of a brick in the narrowest wall (20).
pub const NARROWEST_BRICK: u64 = 0x4034_0000_0000_0000;

/// The state of the game. Lengths, speeds and times are double-precision
/// patterns.
pub struct Game {
    pub width: u64,
    pub height: u64,
    pub scale: u64,
    pub paddle_x: u64,
    pub paddle_y: u64,
    pub paddle_w: u64,
    pub paddle_h: u64,
    pub paddle_target_x: u64,
    /// Whether the paddle follows the pointer; it obeys the keys otherwise.
    pub pointer_active: bool,
    pub ball_x: u64,
    pub ball_y: u64,
    pub ball_vx: u64,
    pub ball_vy: u64,
    pub ball_r: u64,
    pub ball_speed: u64,
    /// Whether the ball is on its way; it rests on the paddle otherwise.
    pub started: bool,
    pub rows: usize,
    pub cols: usize,
    /// The left edges of the columns of the wall.
    pub columns: Vec<u64>,
    pub brick_w: u64,
    pub bricks: Vec<Brick>,
    pub particles: Vec<Particle>,
    pub stars: Vec<Star>,
    pub input_left: bool,
    pub input_right: bool,
    pub lives: i32,
    pub score: i32,
    pub last_time: u64,
    pub time: u64,
}

/// The geometry of a screen.
pub struct Screen {
    pub width: u64,
    pub height: u64,
    pub scale: u64,
    pub paddle_x: u64,
    pub paddle_y: u64,
    pub paddle_w: u64,
    pub ball_r: u64,
    /// The left edges of the columns of the wall, and the width of a brick.
    pub columns: Vec<u64>,
    pub brick_w: u64,
    pub stars: Vec<Star>,
    /// Where the ball rests on the paddle.
    pub rest: (u64, u64),
}

/// Whether a key means left.
pub open spec fn means_left(key: Seq<char>) -> bool {
    key == "ArrowLeft"@ || key == "a"@ || key == "A"@
}

/// Whether a key means right.
pub open spec fn means_right(key: Seq<char>) -> bool {
    key == "ArrowRight"@ || key == "d"@ || key == "D"@
}

/// Whether a key launches the ball.
pub open spec fn means_launch(key: Seq<char>) -> bool {
    key == " "@
}

/// Whether two texts are the same.
fn same_text(a: &str, b: &str) -> (r: bool)
    ensures
        r == (a@ == b@),
{
    a.to_owned() == b.to_owned()
}

/// Whether a key means left.
fn is_left(key: &str) -> (r: bool)
    ensures
        r == means_left(key@),
{
    same_text(key, "ArrowLeft") || same_text(key, "a") || same_text(key, "A")
}

/// Whether a key means right.
fn is_right(key: &str) -> (r: bool)
    ensures
        r == means_right(key@),
{
    same_text(key, "ArrowRight") || same_text(key, "d") || same_text(key, "D")
}

/// The left edges of the columns of the narrowest wall.
pub open spec fn narrowest_columns() -> Seq<u64> {
    seq![
        0x4044_0000_0000_0000,
        0x4052_0000_0000_0000,
        0x405a_0000_0000_0000,
        0x4061_0000_0000_0000,
        0x4065_0000_0000_0000,
        0x4069_0000_0000_0000,
        0x406d_0000_0000_0000,
        0x4070_8000_0000_0000,
        0x4072_8000_0000_0000,
        0x4074_8000_0000_0000,
    ]
}

impl Game {
    /// There is a life left, the score counts whole bricks, and the wall is
    /// either not built yet or complete with all its broken bricks.
    pub open spec fn wf(self) -> bool {
        &&& self.rows == ROWS
        &&& self.cols == COLS
        &&& self.columns@.len() == COLS
        &&& 1 <= self.lives <= LIVES
        &&& 0 <= self.score
        &&& self.score % BRICK_SCORE == 0
        &&& self.bricks@.len() == 0 || self.bricks@.len() == ROWS * COLS
    }

    /// The wall that the screen has room for.
    pub open spec fn whole_wall(self) -> Seq<Brick> {
        wall(self.columns@, self.brick_w)
    }

    /// Whether this is a game on a screen that is not known yet.
    pub open spec fn is_new(self) -> bool {
        &&& self.columns@ == narrowest_columns()
        &&& self.bricks@.len() == 0
        &&& self.particles@.len() == 0
        &&& self.stars@.len() == 0
        &&& self == (Game {
            width: ZERO,
            height: ZERO,
            scale: ONE,
            paddle_x: ZERO,
            paddle_y: ZERO,
            paddle_w: PADDLE_W,
            paddle_h: PADDLE_H,
            paddle_target_x: ZERO,
            pointer_active: false,
            ball_x: ZERO,
            ball_y: ZERO,
            ball_vx: ZERO,
            ball_vy: ZERO,
            ball_r: BALL_R,
            ball_speed: FIRST_SPEED,
            started: false,
            rows: ROWS,
            cols: COLS,
            columns: self.columns,
            brick_w: NARROWEST_BRICK,
            bricks: self.bricks,
            particles: self.particles,
            stars: self.stars,
            input_left: false,
            input_right: false,
            lives: LIVES,
            score: 0,
            last_time: ZERO,
            time: ZERO,
        })
    }

    /// Whether `after` is the game with a whole wall.
    pub open spec fn is_rebuilt(self, after: Game) -> bool {
        &&& after.bricks@ == self.whole_wall()
        &&& after == (Game { bricks: after.bricks, ..self })
    }

    /// Whether `after` is the game started all over.
    pub open spec fn is_restarted(self, rest_x: u64, rest_y: u64, after: Game) -> bool {
        &&& after.bricks@ == self.whole_wall()
        &&& after == (Game {
            score: 0,
            lives: LIVES,
            ball_speed: FIRST_SPEED,
            bricks: after.bricks,
            started: false,
            ..self.rested(rest_x, rest_y)
        })
    }

    /// Whether `after` is the game fitted to a screen.
    pub open spec fn is_fitted(self, screen: Screen, after: Game) -> bool {
        &&& after.columns@ == screen.columns@
        &&& after.bricks@ == wall(screen.columns@, screen.brick_w)
        &&& after.stars@ == screen.stars@
        &&& after == (Game {
            width: screen.width,
            height: screen.height,
            scale: screen.scale,
            paddle_w: screen.paddle_w,
            paddle_h: PADDLE_H,
            paddle_y: screen.paddle_y,
            paddle_x: screen.paddle_x,
            paddle_target_x: screen.paddle_x,
            ball_r: screen.ball_r,
            columns: after.columns,
            brick_w: screen.brick_w,
            bricks: after.bricks,
            stars: after.stars,
            ..self.rested(screen.rest.0, screen.rest.1)
        })
    }

    /// The game with the ball on its way.
    pub open spec fn launched(self, vx: u64, vy: u64) -> Game {
        Game { ball_vx: vx, ball_vy: vy, started: true, ..self }
    }

    /// Whether the ball waits to be launched.
    pub open spec fn is_waiting(self) -> bool {
        !self.started
    }

    /// Whether a key launches the ball now.
    pub open spec fn is_launched_by(self, key: Seq<char>) -> bool {
        means_launch(key) && self.is_waiting()
    }

    /// The game with the paddle in the hands of the pointer.
    pub open spec fn pointed(self, target: u64) -> Game {
        Game { pointer_active: true, paddle_target_x: target, ..self }
    }

    /// When the last frame began; the first one has none before it.
    pub open spec fn last_frame(self, now: u64) -> u64 {
        if bits64::same(self.last_time, ZERO) {
            now
        } else {
            self.last_time
        }
    }

    /// The game at the beginning of a frame.
    pub open spec fn ticked(self, now: u64) -> Game {
        Game { last_time: now, ..self }
    }

    /// The game with a time played.
    pub open spec fn played_until(self, time: u64) -> Game {
        Game { time, ..self }
    }

    /// A game on a screen that is not known yet.
    pub fn new() -> (r: Game)
        ensures
            r.wf(),
            r.is_new(),
    {
        let columns: Vec<u64> = vec![
            0x4044_0000_0000_0000,
            0x4052_0000_0000_0000,
            0x405a_0000_0000_0000,
            0x4061_0000_0000_0000,
            0x4065_0000_0000_0000,
            0x4069_0000_0000_0000,
            0x406d_0000_0000_0000,
            0x4070_8000_0000_0000,
            0x4072_8000_0000_0000,
            0x4074_8000_0000_0000,
        ];
        assert(columns@ =~= narrowest_columns());
        Game {
            width: ZERO,
            height: ZERO,
            scale: ONE,
            paddle_x: ZERO,
            paddle_y: ZERO,
            paddle_w: PADDLE_W,
            paddle_h: PADDLE_H,
            paddle_target_x: ZERO,
            pointer_active: false,
            ball_x: ZERO,
            ball_y: ZERO,
            ball_vx: ZERO,
            ball_vy: ZERO,
            ball_r: BALL_R,
            ball_speed: FIRST_SPEED,
            started: false,
            rows: ROWS,
            cols: COLS,
            columns,
            brick_w: NARROWEST_BRICK,
            bricks: Vec::new(),
            particles: Vec::new(),
            stars: Vec::new(),
            input_left: false,
            input_right: false,
            lives: LIVES,
            score: 0,
            last_time: ZERO,
            time: ZERO,
        }
    }

    /// Builds a whole wall.
    pub fn layout_bricks(&mut self)
        requires
            old(self).wf(),
        ensures
            old(self).is_rebuilt(*final(self)),
            final(self).wf(),
    {
        self.bricks = layout_bricks(&self.columns, self.brick_w);
    }

    /// Brings the ball to rest at a point.
    pub fn reset_ball(&mut self, x: u64, y: u64)
        ensures
            *final(self) == old(self).rested(x, y),
    {
        self.ball_x = x;
        self.ball_y = y;
        self.ball_vx = ZERO;
        self.ball_vy = ZERO;
    }

    /// The game with the ball at rest at a point.
    pub open spec fn rested(self, x: u64, y: u64) -> Game {
        Game { ball_x: x, ball_y: y, ball_vx: ZERO, ball_vy: ZERO, ..self }
    }

    /// Starts all over, with the ball at rest at a point.
    pub fn reset_game(&mut self, rest_x: u64, rest_y: u64)
        requires
            old(self).columns@.len() == COLS,
            old(self).rows == ROWS,
            old(self).cols == COLS,
        ensures
            old(self).is_restarted(rest_x, rest_y, *final(self)),
            final(self).wf(),
    {
        self.score = 0;
        self.lives = LIVES;
        self.ball_speed = FIRST_SPEED;
        self.bricks = layout_bricks(&self.columns, self.brick_w);
        self.reset_ball(rest_x, rest_y);
        self.started = false;
    }

    /// Fits the game to a screen: the paddle goes to the middle, the wall is
    /// whole again and the ball rests. Lives and score stay, and so does
    /// whether the ball was on its way.
    pub fn resize(&mut self, screen: Screen)
        requires
            old(self).wf(),
            screen.columns@.len() == COLS,
        ensures
            final(self).wf(),
            old(self).is_fitted(screen, *final(self)),
    {
        self.width = screen.width;
        self.height = screen.height;
        self.scale = screen.scale;
        self.paddle_w = screen.paddle_w;
        self.paddle_h = PADDLE_H;
        self.paddle_y = screen.paddle_y;
        self.paddle_x = screen.paddle_x;
        self.paddle_target_x = screen.paddle_x;
        self.ball_r = screen.ball_r;
        self.columns = screen.columns;
        self.brick_w = screen.brick_w;
        self.layout_bricks();
        self.stars = screen.stars;
        self.reset_ball(screen.rest.0, screen.rest.1);
    }

    /// Launches the ball with a velocity.
    pub fn launch_ball(&mut self, vx: u64, vy: u64)
        ensures
            *final(self) == old(self).launched(vx, vy),
    {
        self.ball_vx = vx;
        self.ball_vy = vy;
        self.started = true;
    }

    /// Whether the ball waits to be launched.
    pub fn awaits_launch(&self) -> (r: bool)
        ensures
            r == self.is_waiting(),
    {
        !self.started
    }

    /// The pointer wants the left end of the paddle at `target`.
    pub fn move_pointer(&mut self, target: u64)
        ensures
            *final(self) == old(self).pointed(target),
    {
        self.pointer_active = true;
        self.paddle_target_x = target;
    }

    /// The game with a key down. A key that steers takes the paddle from the
    /// pointer.
    pub open spec fn pressed(self, key: Seq<char>) -> Game {
        if means_left(key) {
            Game { input_left: true, pointer_active: false, ..self }
        } else if means_right(key) {
            Game { input_right: true, pointer_active: false, ..self }
        } else {
            self
        }
    }

    /// The game with a key up again.
    pub open spec fn lifted(self, key: Seq<char>) -> Game {
        if means_left(key) {
            Game { input_left: false, ..self }
        } else if means_right(key) {
            Game { input_right: false, ..self }
        } else {
            self
        }
    }

    /// A key goes down. The result tells whether the ball is to be launched.
    pub fn key_down(&mut self, key: &str) -> (launch: bool)
        ensures
            launch == old(self).is_launched_by(key@),
            *final(self) == old(self).pressed(key@),
    {
        proof {
            reveal_strlit("ArrowLeft");
            reveal_strlit("ArrowRight");
            reveal_strlit("a");
            reveal_strlit("A");
            reveal_strlit("d");
            reveal_strlit("D");
            reveal_strlit(" ");
            assert("ArrowLeft"@.len() != " "@.len() && "ArrowRight"@.len() != " "@.len());
            assert(" "@[0] == ' ');
            assert("a"@[0] == 'a' && "A"@[0] == 'A' && "d"@[0] == 'd' && "D"@[0] == 'D');
        }
        if is_left(key) {
            self.input_left = true;
            self.pointer_active = false;
            false
        } else if is_right(key) {
            self.input_right = true;
            self.pointer_active = false;
            false
        } else {
            same_text(key, " ") && !self.started
        }
    }

    /// A key comes up.
    pub fn key_up(&mut self, key: &str)
        ensures
            *final(self) == old(self).lifted(key@),
    {
        if is_left(key) {
            self.input_left = false;
        } else if is_right(key) {
            self.input_right = false;
        }
    }

    /// A frame begins at time `now`. The result is the time at which the last
    /// one began; the first frame counts from itself.
    pub fn tick(&mut self, now: u64) -> (since: u64)
        ensures
            since == old(self).last_frame(now),
            *final(self) == old(self).ticked(now),
    {
        if bits64::eq(self.last_time, ZERO) {
            self.last_time = now;
        }
        let since: u64 = self.last_time;
        self.last_time = now;
        since
    }

    /// Notes the time that has been played.
    pub fn pass_time(&mut self, time: u64)
        ensures
            *final(self) == old(self).played_until(time),
    {
        self.time = time;
    }
}

/// A key that comes up undoes what it did to the steering when it went down, and
/// pressing it twice is pressing it once. The pointer keeps the paddle only
/// through keys that do not steer.
pub proof fn key_up_undoes_key_down(game: Game, key: Seq<char>)
    ensures
        game.pressed(key).pressed(key) == game.pressed(key),
        game.pressed(key).lifted(key) == (Game {
            pointer_active: game.pointer_active && !means_left(key) && !means_right(key),
            ..game.lifted(key)
        }),
        !game.input_left && !game.input_right ==> {
            let after = game.pressed(key).lifted(key);
            !after.input_left && !after.input_right
        },
{
}

/// A time that is not too long for a frame.
pub open spec fn limited_time(elapsed: u64) -> u64 {
    if less(LONGEST_FRAME, elapsed) {
        LONGEST_FRAME
    } else {
        elapsed
    }
}

/// The size of the screen, or a usual one where it does not tell.
pub open spec fn told_size(width: Option<u64>, height: Option<u64>) -> (u64, u64) {
    (
        match width {
            Some(w) => w,
            None => DEFAULT_WIDTH,
        },
        match height {
            Some(h) => h,
            None => DEFAULT_HEIGHT,
        },
    )
}

/// A scale of at least one.
pub open spec fn least_scale(dpr: u64) -> u64 {
    greater(dpr, ONE)
}

/// A width that the paddle can have.
pub open spec fn limited_paddle(share: u64) -> u64 {
    clamped(share, NARROWEST_PADDLE, WIDEST_PADDLE)
}

/// A radius that the ball can have.
pub open spec fn limited_ball(share: u64) -> u64 {
    clamped(share, SMALLEST_BALL, LARGEST_BALL)
}

/// A width that the wall can have.
pub open spec fn least_wall(left_over: u64) -> u64 {
    greater(left_over, LEAST_WALL)
}

/// The time that a frame accounts for, in seconds.
pub fn frame_time(elapsed: u64) -> (r: u64)
    ensures
        r == limited_time(elapsed),
{
    if bits64::lt(LONGEST_FRAME, elapsed) {
        LONGEST_FRAME
    } else {
        elapsed
    }
}

/// The size of the screen, where it tells.
pub fn screen_size(width: Option<u64>, height: Option<u64>) -> (r: (u64, u64))
    ensures
        r == told_size(width, height),
{
    (
        match width {
            Some(w) => w,
            None => DEFAULT_WIDTH,
        },
        match height {
            Some(h) => h,
            None => DEFAULT_HEIGHT,
        },
    )
}

/// The pixels per unit of length: those of the device, but at least one.
pub fn screen_scale(dpr: u64) -> (r: u64)
    ensures
        r == least_scale(dpr),
{
    bits64::max(dpr, ONE)
}

/// The width of the paddle: a share of the screen, within limits.
pub fn paddle_width(share: u64) -> (r: u64)
    ensures
        r == limited_paddle(share),
{
    bits64::clamp(share, NARROWEST_PADDLE, WIDEST_PADDLE)
}

/// The radius of the ball: a share of the screen, within limits.
pub fn ball_radius(share: u64) -> (r: u64)
    ensures
        r == limited_ball(share),
{
    bits64::clamp(share, SMALLEST_BALL, LARGEST_BALL)
}

/// The width of a wall without its gaps: what the screen leaves, but not too
/// little.
pub fn wall_width(left_over: u64) -> (r: u64)
    ensures
        r == least_wall(left_over),
{
    bits64::max(left_over, LEAST_WALL)
}

/// A new game has three lives and no score, a resting ball with a radius of 10 for
/// a speed of 420, a paddle of 180 by 16 that the keys steer, and no bricks yet.
pub proof fn games_start_new(game: Game)
    requires
        game.is_new(),
    ensures
        game.lives == 3 && game.score == 0,
        !game.started && !game.pointer_active && !game.input_left && !game.input_right,
        game.ball_r == 0x4024_0000_0000_0000 && game.ball_speed == 0x407a_4000_0000_0000,
        game.paddle_w == 0x4066_8000_0000_0000 && game.paddle_h == 0x4030_0000_0000_0000,
        game.ball_x == 0 && game.ball_y == 0 && game.ball_vx == 0 && game.ball_vy == 0,
        game.paddle_x == 0 && game.paddle_y == 0 && game.paddle_target_x == 0,
        game.width == 0 && game.height == 0 && game.scale == 0x3ff0_0000_0000_0000,
        game.last_time == 0 && game.time == 0,
        game.rows == 6 && game.cols == 10 && game.columns@.len() == 10,
        game.brick_w == 0x4034_0000_0000_0000,
        game.columns@[0] == 0x4044_0000_0000_0000 && game.columns@[9] == 0x4074_8000_0000_0000,
        game.bricks@.len() == 0 && game.particles@.len() == 0 && game.stars@.len() == 0,
{
}

/// A resting ball is at its point and does not move. Everything else stays.
pub proof fn resting_balls_do_not_move(game: Game, x: u64, y: u64)
    ensures
        game.rested(x, y).ball_x == x && game.rested(x, y).ball_y == y,
        game.rested(x, y).ball_vx == 0 && game.rested(x, y).ball_vy == 0,
        (Game {
            ball_x: game.ball_x,
            ball_y: game.ball_y,
            ball_vx: game.ball_vx,
            ball_vy: game.ball_vy,
            ..game.rested(x, y)
        }) == game,
{
}

/// A game that starts over has three lives, no score, the first speed, a whole
/// wall and a resting ball that waits. The screen, the paddle, the sparks and the
/// keys stay.
pub proof fn games_start_over(game: Game, x: u64, y: u64, after: Game)
    requires
        game.is_restarted(x, y, after),
    ensures
        after.lives == 3 && after.score == 0 && !after.started,
        after.ball_speed == 0x407a_4000_0000_0000,
        after.ball_x == x && after.ball_y == y && after.ball_vx == 0 && after.ball_vy == 0,
        after.bricks@ == wall(game.columns@, game.brick_w),
        after.paddle_x == game.paddle_x && after.paddle_y == game.paddle_y,
        after.paddle_w == game.paddle_w && after.paddle_target_x == game.paddle_target_x,
        after.width == game.width && after.height == game.height && after.ball_r == game.ball_r,
        after.particles == game.particles && after.stars == game.stars,
        after.input_left == game.input_left && after.input_right == game.input_right,
        after.pointer_active == game.pointer_active,
        after.time == game.time && after.last_time == game.last_time,
{
}

/// A rebuilt wall is whole, and nothing else changes.
pub proof fn walls_are_rebuilt(game: Game, after: Game, row: int, col: int)
    requires
        game.is_rebuilt(after),
        0 <= row < 6,
        0 <= col < 10,
    ensures
        after.bricks@.len() == 60,
        after.bricks@[10 * row + col].alive,
        after.bricks@[10 * row + col].x == game.columns@[col],
        after.bricks@[10 * row + col].w == game.brick_w,
        (Game { bricks: game.bricks, ..after }) == game,
{
}

/// A game on another screen has its paddle, ball and wall from there: the paddle,
/// 16 high, is where the pointer is taken to want it, the ball rests, and the wall
/// is whole. The score, the lives, the speed, the sparks, the keys, and whether
/// the ball was on its way, stay.
pub proof fn games_fit_the_screen(game: Game, screen: Screen, after: Game)
    requires
        game.is_fitted(screen, after),
    ensures
        after.width == screen.width && after.height == screen.height && after.scale == screen.scale,
        after.paddle_x == screen.paddle_x && after.paddle_target_x == screen.paddle_x,
        after.paddle_y == screen.paddle_y && after.paddle_w == screen.paddle_w,
        after.paddle_h == 0x4030_0000_0000_0000,
        after.ball_r == screen.ball_r,
        after.ball_x == screen.rest.0 && after.ball_y == screen.rest.1,
        after.ball_vx == 0 && after.ball_vy == 0,
        after.columns@ == screen.columns@ && after.brick_w == screen.brick_w,
        after.bricks@ == wall(screen.columns@, screen.brick_w),
        after.stars@ == screen.stars@,
        after.score == game.score && after.lives == game.lives && after.ball_speed
            == game.ball_speed,
        after.started == game.started && after.pointer_active == game.pointer_active,
        after.input_left == game.input_left && after.input_right == game.input_right,
        after.particles == game.particles,
        after.time == game.time && after.last_time == game.last_time,
{
}

/// A launched ball is on its way with the given velocity, from where it was.
pub proof fn launched_balls_fly(game: Game, vx: u64, vy: u64)
    ensures
        game.launched(vx, vy).ball_vx == vx && game.launched(vx, vy).ball_vy == vy,
        game.launched(vx, vy).started && !game.launched(vx, vy).is_waiting(),
        (Game {
            ball_vx: game.ball_vx,
            ball_vy: game.ball_vy,
            started: game.started,
            ..game.launched(vx, vy)
        }) == game,
        game.is_waiting() <==> !game.started,
{
}

/// The pointer takes the paddle and says where it wants it; nothing else changes.
pub proof fn pointers_take_the_paddle(game: Game, target: u64)
    ensures
        game.pointed(target).pointer_active && game.pointed(target).paddle_target_x == target,
        (Game {
            pointer_active: game.pointer_active,
            paddle_target_x: game.paddle_target_x,
            ..game.pointed(target)
        }) == game,
{
}

/// Left are the left arrow and the letter a, right are the right arrow and the
/// letter d, large or small; the space bar launches a ball that waits. A key that
/// steers one way does not steer the other way, nor does it launch the ball, and
/// no other key does anything.
pub proof fn keys_do_one_thing(game: Game, key: Seq<char>)
    ensures
        means_left(key) <==> key == "ArrowLeft"@ || key == seq!['a'] || key == seq!['A'],
        means_right(key) <==> key == "ArrowRight"@ || key == seq!['d'] || key == seq!['D'],
        game.is_launched_by(key) <==> key == seq![' '] && !game.started,
        !(means_left(key) && means_right(key)),
        means_left(key) || means_right(key) ==> !game.is_launched_by(key),
        means_left(key) ==> game.pressed(key).input_left && game.pressed(key).input_right
            == game.input_right && !game.pressed(key).pointer_active,
        means_right(key) ==> game.pressed(key).input_right && game.pressed(key).input_left
            == game.input_left && !game.pressed(key).pointer_active,
        !means_left(key) && !means_right(key) ==> game.pressed(key) == game && game.lifted(key)
            == game,
        means_left(key) ==> !game.lifted(key).input_left && game.lifted(key).input_right
            == game.input_right,
        means_right(key) ==> !game.lifted(key).input_right && game.lifted(key).input_left
            == game.input_left,
        game.lifted(key).pointer_active == game.pointer_active,
        (Game {
            input_left: game.input_left,
            input_right: game.input_right,
            pointer_active: game.pointer_active,
            ..game.pressed(key)
        }) == game,
        (Game {
            input_left: game.input_left,
            input_right: game.input_right,
            ..game.lifted(key)
        }) == game,
{
    reveal_strlit("ArrowLeft");
    reveal_strlit("ArrowRight");
    reveal_strlit("a");
    reveal_strlit("A");
    reveal_strlit("d");
    reveal_strlit("D");
    reveal_strlit(" ");
    assert("a"@ =~= seq!['a']);
    assert("A"@ =~= seq!['A']);
    assert("d"@ =~= seq!['d']);
    assert("D"@ =~= seq!['D']);
    assert(" "@ =~= seq![' ']);
    assert(seq!['a'][0] == 'a' && seq!['A'][0] == 'A' && seq!['d'][0] == 'd' && seq!['D'][0] == 'D');
    assert(seq![' '][0] == ' ');
    assert("ArrowLeft"@.len() == 9 && "ArrowRight"@.len() == 10);
}

/// A frame counts from the one before it; the very first counts from itself. It is
/// from now on the last one.
pub proof fn frames_count_from_the_last(game: Game, now: u64, later: u64)
    ensures
        game.ticked(now).last_time == now,
        bits64::same(game.last_time, 0) ==> game.last_frame(now) == now,
        !bits64::same(game.last_time, 0) ==> game.last_frame(now) == game.last_time,
        !bits64::same(now, 0) ==> game.ticked(now).last_frame(later) == now,
        (Game { last_time: game.last_time, ..game.ticked(now) }) == game,
        game.played_until(now).time == now,
        (Game { time: game.time, ..game.played_until(now) }) == game,
{
}

/// A frame accounts for a twentieth of a second at most; shorter times stay.
pub proof fn long_frames_are_cut(elapsed: u64)
    ensures
        less(0x3fa9_9999_9999_999a, elapsed) ==> limited_time(elapsed) == 0x3fa9_9999_9999_999a,
        !less(0x3fa9_9999_9999_999a, elapsed) ==> limited_time(elapsed) == elapsed,
{
}

/// A screen is as large as it tells, or 960 by 540 where it does not, each side by
/// itself.
pub proof fn screens_tell_their_size(width: Option<u64>, height: Option<u64>)
    ensures
        width matches Some(w) ==> told_size(width, height).0 == w,
        height matches Some(h) ==> told_size(width, height).1 == h,
        width is None ==> told_size(width, height).0 == 0x408e_0000_0000_0000,
        height is None ==> told_size(width, height).1 == 0x4080_e000_0000_0000,
{
}

/// The scale is at least one, the paddle from 120 to 240 wide, the ball's radius
/// from 8 to 14 and the wall at least 200 wide; what is worked out within these
/// limits stays.
pub proof fn layout_stays_within_limits(x: u64)
    ensures
        bits64::at_most(0x3ff0_0000_0000_0000, x) ==> bits64::same(least_scale(x), x),
        !bits64::at_most(0x3ff0_0000_0000_0000, x) ==> least_scale(x) == 0x3ff0_0000_0000_0000,
        less(x, 0x405e_0000_0000_0000) ==> limited_paddle(x) == 0x405e_0000_0000_0000,
        less(0x406e_0000_0000_0000, x) ==> limited_paddle(x) == 0x406e_0000_0000_0000,
        bits64::at_most(0x405e_0000_0000_0000, x) && bits64::at_most(x, 0x406e_0000_0000_0000)
            ==> limited_paddle(x) == x,
        less(x, 0x4020_0000_0000_0000) ==> limited_ball(x) == 0x4020_0000_0000_0000,
        less(0x402c_0000_0000_0000, x) ==> limited_ball(x) == 0x402c_0000_0000_0000,
        bits64::at_most(0x4020_0000_0000_0000, x) && bits64::at_most(x, 0x402c_0000_0000_0000)
            ==> limited_ball(x) == x,
        bits64::at_most(0x4069_0000_0000_0000, x) ==> bits64::same(least_wall(x), x),
        !bits64::at_most(0x4069_0000_0000_0000, x) ==> least_wall(x) == 0x4069_0000_0000_0000,
{
}

/// A game has one to three lives, a score in hundreds, and sixty bricks once it
/// has any.
pub proof fn games_are_in_order(game: Game)
    requires
        game.wf(),
    ensures
        1 <= game.lives <= 3,
        game.score >= 0 && game.score % 100 == 0,
        game.bricks@.len() == 0 || game.bricks@.len() == 60,
        game.columns@.len() == 10,
{
}

} // verus!
