//! What happens in a frame of the game.
//!
//! A frame is a state machine. It says what is to be measured next, takes the
//! measurements (double-precision patterns of sums, products and roots of the
//! game's state), and decides what they mean: where the ball bounces, which
//! brick breaks, when a life or a wall is lost.

use vstd::prelude::*;
use crate::bits64::{
    self, at_most, clamped, flipped, greater, less, unsigned, MINUS_ONE, ONE, ZERO,
};
use crate::block_breaker::bricks::{
    all_broken, breaking_takes_one_brick, broken, none_standing, standing,
    standing_bricks_are_bricks, wall, whole_wall_stands, Brick,
};
use crate::block_breaker::game::{Game, BRICK_SCORE, FIRST_SPEED, LIVES};
use crate::block_breaker::particles::{
    add_all, glowing, retain_glowing, spawn_hit_particles, thinned, Particle, HIT_PARTICLES,
    TRAIL_PARTICLES,
};

verus! {

/// Where the paddle would go.
#[derive(Clone, Copy, PartialEq, Eq, Structural, Debug)]
pub struct PaddleMoves {
    /// Under the left key.
    pub left: u64,
    /// Under the right key.
    pub right: u64,
    /// Under both keys, left first.
    pub both: u64,
    /// The farthest that it can go to the right.
    pub limit: u64,
}

/// The ball against the walls.
#[derive(Clone, Copy, PartialEq, Eq, Structural, Debug)]
pub struct WallSums {
    /// The left edge of the ball.
    pub left_edge: u64,
    /// The right edge of the ball.
    pub right_edge: u64,
    /// The right edge of a ball at the left wall.
    pub right_edge_at_left: u64,
    /// The middle of a ball at the right wall.
    pub right_stop: u64,
    /// The upper edge of the ball.
    pub top_edge: u64,
    /// The upper edge of a ball at the ceiling.
    pub top_edge_at_top: u64,
    /// Where the ball rests on the paddle.
    pub rest_x: u64,
    pub rest_y: u64,
}

/// What is to be done next in a frame.
#[derive(Clone, Copy, PartialEq, Eq, Structural, Debug)]
pub enum UpdateAction {
    /// Work out where the paddle would go.
    MeasurePaddle,
    /// Work out where the ball rests and where it flies.
    MeasureBall,
    /// Hold the ball against the walls.
    MeasureWalls,
    /// Hold the ball against the paddle.
    MeasureContact,
    /// Work out where the paddle was hit, and how fast.
    MeasureRebound,
    /// Send the ball off at an angle of `offset` (from -1 to 1) times the
    /// widest, with `speed`.
    Aim { offset: u64, speed: u64 },
    /// Work out how far the ball is from each brick.
    MeasureBricks,
    /// Work out how far the ball overlaps the brick on either axis.
    MeasureImpact { brick: usize },
    /// Work out the speed of the ball, and its velocity at the speed of the
    /// game.
    MeasureSpeed { brick: usize },
    /// Make the sparks of the broken brick.
    MakeBurst { brick: usize },
    /// Make the sparks that the ball leaves behind.
    MakeTrail,
    /// Move the sparks on.
    MoveParticles,
    /// Work out the speed in front of the next wall.
    RaiseSpeed,
    /// The frame is done.
    Finish,
}

/// What was measured.
pub enum UpdateEvent {
    PaddleMeasured { moves: PaddleMoves },
    BallMeasured { rest: (u64, u64), flight: (u64, u64) },
    WallsMeasured { sums: WallSums },
    /// The lower edge of the ball, how far down the paddle still catches it, and
    /// the right end of the paddle.
    ContactMeasured { bottom: u64, reach: u64, paddle_right: u64 },
    /// The place on the paddle, the speed of the ball, and the least speed of a
    /// rebound.
    ReboundMeasured { offset: u64, speed: u64, floor: u64 },
    /// The new velocity, and the height at which the ball leaves the paddle.
    Aimed { vx: u64, vy: u64, y: u64 },
    /// The square of the distance from each brick, and that of the radius.
    BricksMeasured { distances: Vec<u64>, reach: u64 },
    /// The overlap on either axis, and the speed of the game after a hit.
    ImpactMeasured { overlap_x: u64, overlap_y: u64, boosted: u64 },
    /// The speed of the ball, and its velocity brought to the speed of the game.
    SpeedMeasured { speed: u64, vx: u64, vy: u64 },
    BurstMade { burst: Vec<Particle> },
    TrailMade { trail: Vec<Particle> },
    ParticlesMoved { moved: Vec<Particle> },
    SpeedRaised { speed: u64 },
}

impl Game {
    /// Where the pointer or the keys want the paddle.
    pub open spec fn wanted_paddle_x(self, moves: PaddleMoves) -> u64 {
        if self.pointer_active {
            self.paddle_target_x
        } else if self.input_left && self.input_right {
            moves.both
        } else if self.input_left {
            moves.left
        } else if self.input_right {
            moves.right
        } else {
            self.paddle_x
        }
    }

    /// Whether the ball touches the left wall.
    pub open spec fn touches_left(self, sums: WallSums) -> bool {
        at_most(sums.left_edge, ZERO)
    }

    /// Whether the ball touches the right wall, once the left wall has had its
    /// say.
    pub open spec fn touches_right(self, sums: WallSums) -> bool {
        at_most(
            self.width,
            if self.touches_left(sums) {
                sums.right_edge_at_left
            } else {
                sums.right_edge
            },
        )
    }

    /// Whether the ball touches the ceiling.
    pub open spec fn touches_top(self, sums: WallSums) -> bool {
        at_most(sums.top_edge, ZERO)
    }

    /// Whether the ball has left the screen below.
    pub open spec fn is_lost(self, sums: WallSums) -> bool {
        less(
            self.height,
            if self.touches_top(sums) {
                sums.top_edge_at_top
            } else {
                sums.top_edge
            },
        )
    }

    /// The game after the ball has met the walls and the ceiling: it is put at
    /// them and flies away from them.
    pub open spec fn bounced(self, sums: WallSums) -> Game {
        Game {
            ball_x: if self.touches_right(sums) {
                sums.right_stop
            } else if self.touches_left(sums) {
                self.ball_r
            } else {
                self.ball_x
            },
            ball_vx: if self.touches_right(sums) {
                flipped(unsigned(self.ball_vx))
            } else if self.touches_left(sums) {
                unsigned(self.ball_vx)
            } else {
                self.ball_vx
            },
            ball_y: if self.touches_top(sums) {
                self.ball_r
            } else {
                self.ball_y
            },
            ball_vy: if self.touches_top(sums) {
                unsigned(self.ball_vy)
            } else {
                self.ball_vy
            },
            ..self
        }
    }

    /// Whether the paddle catches the ball.
    pub open spec fn is_caught(self, bottom: u64, reach: u64, paddle_right: u64) -> bool {
        &&& less(ZERO, self.ball_vy)
        &&& at_most(self.paddle_y, bottom)
        &&& at_most(bottom, reach)
        &&& at_most(self.paddle_x, self.ball_x)
        &&& at_most(self.ball_x, paddle_right)
    }

    /// Whether the ball touches brick `i`.
    pub open spec fn touches_brick(self, distances: Seq<u64>, reach: u64, i: int) -> bool {
        self.bricks@[i].alive && at_most(distances[i], reach)
    }

    /// Whether the ball touches none of the first `n` bricks.
    pub open spec fn touches_none_before(self, distances: Seq<u64>, reach: u64, n: int) -> bool {
        forall|j: int| 0 <= j < n ==> !#[trigger] self.touches_brick(distances, reach, j)
    }

    /// What comes after the collisions.
    pub open spec fn after_collisions(self) -> UpdateAction {
        if self.started {
            UpdateAction::MakeTrail
        } else {
            UpdateAction::MoveParticles
        }
    }

    /// Whether the game can wait for the outcome of an action: the brick that it
    /// is about is there, and still stands if it is about to break.
    pub open spec fn awaits(self, asked: UpdateAction) -> bool {
        match asked {
            UpdateAction::MeasureImpact { brick } => brick < self.bricks@.len()
                && self.bricks@[brick as int].alive,
            UpdateAction::MeasureSpeed { brick } => brick < self.bricks@.len(),
            UpdateAction::MakeBurst { brick } => brick < self.bricks@.len(),
            _ => true,
        }
    }

    /// Whether the measurements are those that an action asks for.
    pub open spec fn expects(self, asked: UpdateAction, event: UpdateEvent) -> bool {
        &&& self.awaits(asked)
        &&& match event {
            UpdateEvent::PaddleMeasured { moves } => asked is MeasurePaddle && at_most(
                ZERO,
                moves.limit,
            ),
            UpdateEvent::BallMeasured { .. } => asked is MeasureBall,
            UpdateEvent::WallsMeasured { .. } => asked is MeasureWalls,
            UpdateEvent::ContactMeasured { .. } => asked is MeasureContact,
            UpdateEvent::ReboundMeasured { .. } => asked is MeasureRebound,
            UpdateEvent::Aimed { .. } => asked is Aim,
            UpdateEvent::BricksMeasured { distances, .. } => asked is MeasureBricks
                && distances@.len() == self.bricks@.len(),
            UpdateEvent::ImpactMeasured { .. } => asked is MeasureImpact && self.score + BRICK_SCORE
                <= i32::MAX,
            UpdateEvent::SpeedMeasured { .. } => asked is MeasureSpeed,
            UpdateEvent::BurstMade { burst } => asked is MakeBurst && burst@.len() == HIT_PARTICLES,
            UpdateEvent::TrailMade { trail } => asked is MakeTrail && trail@.len()
                == TRAIL_PARTICLES,
            UpdateEvent::ParticlesMoved { moved } => asked is MoveParticles && moved@.len()
                == self.particles@.len(),
            UpdateEvent::SpeedRaised { .. } => asked is RaiseSpeed,
        }
    }

    /// What a lost ball does: it costs a life, and the last one the game. The
    /// ball rests again either way.
    pub open spec fn ball_lost(self, sums: WallSums, after: Game) -> bool {
        if self.lives > 1 {
            &&& after.bricks@ == self.bricks@
            &&& after == (Game {
                lives: (self.lives - 1) as i32,
                started: false,
                bricks: after.bricks,
                ..self.rested(sums.rest_x, sums.rest_y)
            })
        } else {
            &&& after.bricks@ == self.whole_wall()
            &&& after == (Game {
                score: 0,
                lives: LIVES,
                ball_speed: FIRST_SPEED,
                started: false,
                bricks: after.bricks,
                ..self.rested(sums.rest_x, sums.rest_y)
            })
        }
    }

    /// What a brick that is hit does: it breaks and counts, and the ball turns
    /// round on the axis on which it overlaps the brick less.
    pub open spec fn brick_hit(
        self,
        brick: usize,
        overlap_x: u64,
        overlap_y: u64,
        boosted: u64,
        after: Game,
    ) -> bool {
        &&& after.bricks@ == broken(self.bricks@, brick as int)
        &&& after == (Game {
            bricks: after.bricks,
            score: (self.score + BRICK_SCORE) as i32,
            ball_vx: if less(overlap_x, overlap_y) {
                flipped(self.ball_vx)
            } else {
                self.ball_vx
            },
            ball_vy: if less(overlap_x, overlap_y) {
                self.ball_vy
            } else {
                flipped(self.ball_vy)
            },
            ball_speed: boosted,
            ..self
        })
    }

    /// What measurements do to the game, and what is to be done after them.
    pub open spec fn next(
        self,
        asked: UpdateAction,
        event: UpdateEvent,
        after: Game,
        action: UpdateAction,
    ) -> bool {
        match event {
            UpdateEvent::PaddleMeasured { moves } => {
                &&& after == (Game {
                    paddle_x: clamped(self.wanted_paddle_x(moves), ZERO, moves.limit),
                    ..self
                })
                &&& action == UpdateAction::MeasureBall
            },
            UpdateEvent::BallMeasured { rest, flight } => {
                &&& after == (Game {
                    ball_x: if self.started {
                        flight.0
                    } else {
                        rest.0
                    },
                    ball_y: if self.started {
                        flight.1
                    } else {
                        rest.1
                    },
                    ..self
                })
                &&& action == UpdateAction::MeasureWalls
            },
            UpdateEvent::WallsMeasured { sums } => if self.is_lost(sums) {
                &&& self.bounced(sums).ball_lost(sums, after)
                &&& action == UpdateAction::MoveParticles
            } else {
                &&& after == self.bounced(sums)
                &&& action == UpdateAction::MeasureContact
            },
            UpdateEvent::ContactMeasured { bottom, reach, paddle_right } => {
                &&& after == self
                &&& action == if self.is_caught(bottom, reach, paddle_right) {
                    UpdateAction::MeasureRebound
                } else {
                    UpdateAction::MeasureBricks
                }
            },
            UpdateEvent::ReboundMeasured { offset, speed, floor } => {
                &&& after == self
                &&& action == (UpdateAction::Aim {
                    offset: clamped(offset, MINUS_ONE, ONE),
                    speed: greater(speed, floor),
                })
            },
            UpdateEvent::Aimed { vx, vy, y } => {
                &&& after == (Game { ball_vx: vx, ball_vy: vy, ball_y: y, ..self })
                &&& action == UpdateAction::MeasureBricks
            },
            UpdateEvent::BricksMeasured { distances, reach } => {
                &&& after == self
                &&& match action {
                    UpdateAction::MeasureImpact { brick } => {
                        &&& brick < self.bricks@.len()
                        &&& self.touches_brick(distances@, reach, brick as int)
                        &&& self.touches_none_before(distances@, reach, brick as int)
                    },
                    _ => {
                        &&& action == self.after_collisions()
                        &&& self.touches_none_before(
                            distances@,
                            reach,
                            self.bricks@.len() as int,
                        )
                    },
                }
            },
            UpdateEvent::ImpactMeasured { overlap_x, overlap_y, boosted } => {
                let brick = asked->MeasureImpact_brick;
                &&& self.brick_hit(brick, overlap_x, overlap_y, boosted, after)
                &&& action == UpdateAction::MeasureSpeed { brick }
            },
            UpdateEvent::SpeedMeasured { speed, vx, vy } => {
                &&& after == if less(ZERO, speed) {
                    Game { ball_vx: vx, ball_vy: vy, ..self }
                } else {
                    self
                }
                &&& action == UpdateAction::MakeBurst { brick: asked->MeasureSpeed_brick }
            },
            UpdateEvent::BurstMade { burst } => {
                &&& after.particles@ == thinned(self.particles@ + burst@)
                &&& after == (Game { particles: after.particles, ..self })
                &&& action == self.after_collisions()
            },
            UpdateEvent::TrailMade { trail } => {
                &&& after.particles@ == self.particles@ + trail@
                &&& after == (Game { particles: after.particles, ..self })
                &&& action == UpdateAction::MoveParticles
            },
            UpdateEvent::ParticlesMoved { moved } => {
                &&& after.particles@ == glowing(moved@)
                &&& after == (Game { particles: after.particles, ..self })
                &&& action == if standing(self.bricks@) == 0 {
                    UpdateAction::RaiseSpeed
                } else {
                    UpdateAction::Finish
                }
            },
            UpdateEvent::SpeedRaised { speed } => {
                &&& after.bricks@ == self.whole_wall()
                &&& after == (Game {
                    ball_speed: speed,
                    bricks: after.bricks,
                    started: false,
                    ..self
                })
                &&& action == UpdateAction::Finish
            },
        }
    }

    /// Moves a frame on: takes the measurements that `asked` asked for and says
    /// what is to be done after them. A frame begins with `MeasurePaddle`.
    pub fn update(&mut self, asked: UpdateAction, event: UpdateEvent) -> (action: UpdateAction)
        requires
            old(self).wf(),
            old(self).expects(asked, event),
        ensures
            old(self).next(asked, event, *final(self), action),
            final(self).wf(),
            final(self).awaits(action),
    {
        match event {
            UpdateEvent::PaddleMeasured { moves } => {
                self.move_paddle(moves);
                UpdateAction::MeasureBall
            },
            UpdateEvent::BallMeasured { rest, flight } => {
                if !self.started {
                    self.ball_x = rest.0;
                    self.ball_y = rest.1;
                } else {
                    self.ball_x = flight.0;
                    self.ball_y = flight.1;
                }
                UpdateAction::MeasureWalls
            },
            UpdateEvent::WallsMeasured { sums } => self.meet_walls(sums),
            UpdateEvent::ContactMeasured { bottom, reach, paddle_right } => {
                if bits64::lt(ZERO, self.ball_vy) && bits64::le(self.paddle_y, bottom)
                    && bits64::le(bottom, reach) && bits64::le(self.paddle_x, self.ball_x)
                    && bits64::le(self.ball_x, paddle_right) {
                    UpdateAction::MeasureRebound
                } else {
                    UpdateAction::MeasureBricks
                }
            },
            UpdateEvent::ReboundMeasured { offset, speed, floor } => UpdateAction::Aim {
                offset: bits64::clamp(offset, MINUS_ONE, ONE),
                speed: bits64::max(speed, floor),
            },
            UpdateEvent::Aimed { vx, vy, y } => {
                self.ball_vx = vx;
                self.ball_vy = vy;
                self.ball_y = y;
                UpdateAction::MeasureBricks
            },
            UpdateEvent::BricksMeasured { distances, reach } => self.find_brick(&distances, reach),
            UpdateEvent::ImpactMeasured { overlap_x, overlap_y, boosted } => {
                let brick: usize = match asked {
                    UpdateAction::MeasureImpact { brick } => brick,
                    _ => 0,
                };
                self.break_brick(brick, overlap_x, overlap_y, boosted);
                UpdateAction::MeasureSpeed { brick }
            },
            UpdateEvent::SpeedMeasured { speed, vx, vy } => {
                if bits64::lt(ZERO, speed) {
                    self.ball_vx = vx;
                    self.ball_vy = vy;
                }
                let brick: usize = match asked {
                    UpdateAction::MeasureSpeed { brick } => brick,
                    _ => 0,
                };
                UpdateAction::MakeBurst { brick }
            },
            UpdateEvent::BurstMade { burst } => {
                spawn_hit_particles(&mut self.particles, &burst);
                self.turn_to_particles()
            },
            UpdateEvent::TrailMade { trail } => {
                add_all(&mut self.particles, &trail);
                UpdateAction::MoveParticles
            },
            UpdateEvent::ParticlesMoved { moved } => {
                self.particles = retain_glowing(&moved);
                if all_broken(&self.bricks) {
                    UpdateAction::RaiseSpeed
                } else {
                    UpdateAction::Finish
                }
            },
            UpdateEvent::SpeedRaised { speed } => {
                self.ball_speed = speed;
                self.layout_bricks();
                self.started = false;
                UpdateAction::Finish
            },
        }
    }

    /// Moves the paddle, and keeps it on the screen.
    fn move_paddle(&mut self, moves: PaddleMoves)
        requires
            at_most(ZERO, moves.limit),
        ensures
            *final(self) == (Game {
                paddle_x: clamped(old(self).wanted_paddle_x(moves), ZERO, moves.limit),
                ..*old(self)
            }),
    {
        let wanted: u64 = if self.pointer_active {
            self.paddle_target_x
        } else if self.input_left {
            if self.input_right {
                moves.both
            } else {
                moves.left
            }
        } else if self.input_right {
            moves.right
        } else {
            self.paddle_x
        };
        self.paddle_x = bits64::clamp(wanted, ZERO, moves.limit);
    }

    /// Lets the ball bounce off the walls and the ceiling, or go down.
    fn meet_walls(&mut self, sums: WallSums) -> (action: UpdateAction)
        requires
            old(self).wf(),
        ensures
            old(self).is_lost(sums) ==> old(self).bounced(sums).ball_lost(sums, *final(self))
                && action == UpdateAction::MoveParticles,
            !old(self).is_lost(sums) ==> *final(self) == old(self).bounced(sums) && action
                == UpdateAction::MeasureContact,
            final(self).wf(),
    {
        let mut right_edge: u64 = sums.right_edge;
        if bits64::le(sums.left_edge, ZERO) {
            self.ball_x = self.ball_r;
            self.ball_vx = bits64::abs(self.ball_vx);
            right_edge = sums.right_edge_at_left;
        }
        if bits64::le(self.width, right_edge) {
            self.ball_x = sums.right_stop;
            self.ball_vx = bits64::neg(bits64::abs(self.ball_vx));
        }
        let mut top_edge: u64 = sums.top_edge;
        if bits64::le(top_edge, ZERO) {
            self.ball_y = self.ball_r;
            self.ball_vy = bits64::abs(self.ball_vy);
            top_edge = sums.top_edge_at_top;
        }
        assert(*self == old(self).bounced(sums));
        if bits64::lt(self.height, top_edge) {
            self.lives = self.lives - 1;
            if self.lives <= 0 {
                self.reset_game(sums.rest_x, sums.rest_y);
            } else {
                self.started = false;
                self.reset_ball(sums.rest_x, sums.rest_y);
            }
            return UpdateAction::MoveParticles;
        }
        UpdateAction::MeasureContact
    }

    /// Finds the first standing brick that the ball touches.
    fn find_brick(&self, distances: &Vec<u64>, reach: u64) -> (action: UpdateAction)
        requires
            distances@.len() == self.bricks@.len(),
        ensures
            match action {
                UpdateAction::MeasureImpact { brick } => {
                    &&& brick < self.bricks@.len()
                    &&& self.touches_brick(distances@, reach, brick as int)
                    &&& self.touches_none_before(distances@, reach, brick as int)
                },
                _ => {
                    &&& action == self.after_collisions()
                    &&& self.touches_none_before(distances@, reach, self.bricks@.len() as int)
                },
            },
    {
        let mut i: usize = 0;
        while i < self.bricks.len()
            invariant
                i <= self.bricks@.len(),
                distances@.len() == self.bricks@.len(),
                forall|j: int|
                    0 <= j < i ==> !#[trigger] self.touches_brick(distances@, reach, j),
            decreases self.bricks@.len() - i,
        {
            if self.bricks[i].alive && bits64::le(distances[i], reach) {
                return UpdateAction::MeasureImpact { brick: i };
            }
            i += 1;
        }
        self.turn_to_particles()
    }

    /// Breaks a brick, and turns the ball round.
    fn break_brick(&mut self, brick: usize, overlap_x: u64, overlap_y: u64, boosted: u64)
        requires
            brick < old(self).bricks@.len(),
            old(self).score + BRICK_SCORE <= i32::MAX,
        ensures
            old(self).brick_hit(brick, overlap_x, overlap_y, boosted, *final(self)),
    {
        let mut hit: Brick = self.bricks[brick];
        hit.alive = false;
        self.bricks.set(brick, hit);
        self.score = self.score + BRICK_SCORE;
        if bits64::lt(overlap_x, overlap_y) {
            self.ball_vx = bits64::neg(self.ball_vx);
        } else {
            self.ball_vy = bits64::neg(self.ball_vy);
        }
        self.ball_speed = boosted;
    }

    /// Turns from the collisions to the sparks.
    fn turn_to_particles(&self) -> (action: UpdateAction)
        ensures
            action == self.after_collisions(),
    {
        if self.started {
            UpdateAction::MakeTrail
        } else {
            UpdateAction::MoveParticles
        }
    }
}

/// How far an action is from the end of the frame.
pub open spec fn steps_left(action: UpdateAction) -> int {
    match action {
        UpdateAction::MeasurePaddle => 13,
        UpdateAction::MeasureBall => 12,
        UpdateAction::MeasureWalls => 11,
        UpdateAction::MeasureContact => 10,
        UpdateAction::MeasureRebound => 9,
        UpdateAction::Aim { .. } => 8,
        UpdateAction::MeasureBricks => 7,
        UpdateAction::MeasureImpact { .. } => 6,
        UpdateAction::MeasureSpeed { .. } => 5,
        UpdateAction::MakeBurst { .. } => 4,
        UpdateAction::MakeTrail => 3,
        UpdateAction::MoveParticles => 2,
        UpdateAction::RaiseSpeed => 1,
        UpdateAction::Finish => 0,
    }
}

/// A frame ends: every measurement brings its end nearer.
pub proof fn frame_ends(
    game: Game,
    asked: UpdateAction,
    event: UpdateEvent,
    after: Game,
    action: UpdateAction,
)
    requires
        game.expects(asked, event),
        game.next(asked, event, after, action),
    ensures
        0 <= steps_left(action) < steps_left(asked),
{
}

/// The walls turn the ball round but neither speed it up nor slow it down.
pub proof fn walls_keep_the_speed(game: Game, sums: WallSums)
    ensures
        unsigned(game.bounced(sums).ball_vx) == unsigned(game.ball_vx),
        unsigned(game.bounced(sums).ball_vy) == unsigned(game.ball_vy),
{
}

/// A ball that has met a wall flies away from it: to the right off the left
/// wall, to the left off the right wall, down off the ceiling.
pub proof fn ball_leaves_the_wall(game: Game, sums: WallSums)
    requires
        !bits64::is_nan(game.ball_vx),
        !bits64::is_nan(game.ball_vy),
    ensures
        game.touches_right(sums) ==> at_most(game.bounced(sums).ball_vx, ZERO),
        game.touches_left(sums) && !game.touches_right(sums) ==> at_most(
            ZERO,
            game.bounced(sums).ball_vx,
        ),
        game.touches_top(sums) ==> at_most(ZERO, game.bounced(sums).ball_vy),
{
}

/// A hit brick turns the ball round on one axis, keeps its speed on both, and
/// scores exactly for the one brick that is gone.
pub proof fn hit_is_scored_once(
    game: Game,
    brick: usize,
    overlap_x: u64,
    overlap_y: u64,
    boosted: u64,
    after: Game,
)
    requires
        brick < game.bricks@.len(),
        game.bricks@[brick as int].alive,
        game.score + BRICK_SCORE <= i32::MAX,
        game.brick_hit(brick, overlap_x, overlap_y, boosted, after),
    ensures
        after.score == game.score + BRICK_SCORE,
        standing(after.bricks@) == standing(game.bricks@) - 1,
        unsigned(after.ball_vx) == unsigned(game.ball_vx),
        unsigned(after.ball_vy) == unsigned(game.ball_vy),
        (after.ball_vx == game.ball_vx) != (after.ball_vy == game.ball_vy),
{
    breaking_takes_one_brick(game.bricks@, brick as int);
}

/// Only a lost ball changes the lives: it takes one, or starts a new game with
/// all lives, no score and a whole wall when it was the last.
pub proof fn lives_are_lost_below(
    game: Game,
    asked: UpdateAction,
    event: UpdateEvent,
    after: Game,
    action: UpdateAction,
)
    requires
        game.wf(),
        game.expects(asked, event),
        game.next(asked, event, after, action),
    ensures
        match event {
            UpdateEvent::WallsMeasured { sums } => if game.is_lost(sums) {
                &&& !after.started
                &&& game.lives > 1 ==> after.lives == game.lives - 1 && after.score == game.score
                    && after.bricks@ == game.bricks@
                &&& game.lives == 1 ==> after.lives == LIVES && after.score == 0 && after.bricks@
                    == game.whole_wall()
            } else {
                after.lives == game.lives
            },
            _ => after.lives == game.lives,
        },
{
}

/// The score grows by one brick at a time, and falls only with a new game.
pub proof fn score_counts_bricks(
    game: Game,
    asked: UpdateAction,
    event: UpdateEvent,
    after: Game,
    action: UpdateAction,
)
    requires
        game.wf(),
        game.expects(asked, event),
        game.next(asked, event, after, action),
    ensures
        event is ImpactMeasured ==> after.score == game.score + BRICK_SCORE,
        !(event is ImpactMeasured) ==> after.score == game.score || (after.score == 0 && after.lives
            == LIVES && game.lives == 1),
{
}

/// A frame that ends leaves at least one brick standing, or a whole new wall.
pub proof fn wall_is_rebuilt(
    game: Game,
    asked: UpdateAction,
    event: UpdateEvent,
    after: Game,
    action: UpdateAction,
)
    requires
        game.wf(),
        game.expects(asked, event),
        game.next(asked, event, after, action),
        action is Finish,
    ensures
        standing(after.bricks@) > 0,
        event is SpeedRaised ==> !after.started && after.lives == game.lives && after.score
            == game.score,
{
    whole_wall_stands(game.columns@, game.brick_w);
}

/// What measurements do leaves the game in order.
proof fn order_is_kept(
    game: Game,
    asked: UpdateAction,
    event: UpdateEvent,
    after: Game,
    action: UpdateAction,
)
    requires
        game.wf(),
        game.expects(asked, event),
        game.next(asked, event, after, action),
    ensures
        after.wf(),
{
}

/// Whether a frame has gone through these games, asking for these actions and
/// getting these measurements.
pub open spec fn played(
    games: Seq<Game>,
    actions: Seq<UpdateAction>,
    events: Seq<UpdateEvent>,
) -> bool {
    &&& games.len() == events.len() + 1
    &&& actions.len() == events.len() + 1
    &&& forall|i: int|
        #![trigger events[i]]
        0 <= i < events.len() ==> games[i].expects(actions[i], events[i]) && games[i].next(
            actions[i],
            events[i],
            games[i + 1],
            actions[i + 1],
        )
}

/// The end of a frame that waits for `actions[0]`: it breaks another brick only
/// if it has not looked for one yet, and takes another life only if it has not
/// looked at the walls yet.
proof fn rest_of_a_frame(games: Seq<Game>, actions: Seq<UpdateAction>, events: Seq<UpdateEvent>)
    requires
        played(games, actions, events),
        games[0].wf(),
    ensures
        games.last().wf(),
        events.len() <= steps_left(actions[0]),
        standing(games.last().bricks@) + (if steps_left(actions[0]) >= 6 {
            1int
        } else {
            0
        }) >= standing(games[0].bricks@),
        games.last().score <= games[0].score + (if steps_left(actions[0]) >= 6 {
            BRICK_SCORE as int
        } else {
            0
        }),
        games.last().lives + (if steps_left(actions[0]) >= 11 {
            1int
        } else {
            0
        }) >= games[0].lives,
    decreases events.len(),
{
    if events.len() > 0 {
        let game = games[0];
        let after = games[1];
        assert(game.expects(actions[0], events[0]));
        order_is_kept(game, actions[0], events[0], after, actions[1]);
        let later = games.skip(1);
        assert forall|i: int|
            #![trigger events.skip(1)[i]]
            0 <= i < events.skip(1).len() implies later[i].expects(
            actions.skip(1)[i],
            events.skip(1)[i],
        ) && later[i].next(
            actions.skip(1)[i],
            events.skip(1)[i],
            later[i + 1],
            actions.skip(1)[i + 1],
        ) by {
            assert(events.skip(1)[i] == events[i + 1]);
        }
        rest_of_a_frame(later, actions.skip(1), events.skip(1));
        standing_bricks_are_bricks(game.bricks@);
        whole_wall_stands(game.columns@, game.brick_w);
        if let UpdateAction::MeasureImpact { brick } = actions[0] {
            breaking_takes_one_brick(game.bricks@, brick as int);
        }
    } else {
        assert(games.last() == games[0]);
    }
}

/// A frame takes a bounded number of steps, breaks and scores at most one brick,
/// takes at most one life, and leaves the game in order.
pub proof fn frame_is_bounded(
    games: Seq<Game>,
    actions: Seq<UpdateAction>,
    events: Seq<UpdateEvent>,
)
    requires
        played(games, actions, events),
        games[0].wf(),
        actions[0] is MeasurePaddle,
    ensures
        games.last().wf(),
        events.len() <= 13,
        standing(games.last().bricks@) >= standing(games[0].bricks@) - 1,
        games.last().score <= games[0].score + BRICK_SCORE,
        games.last().lives >= games[0].lives - 1,
{
    rest_of_a_frame(games, actions, events);
}

/// The paddle never leaves the screen.
pub proof fn paddle_stays_on_screen(game: Game, moves: PaddleMoves)
    requires
        at_most(ZERO, moves.limit),
        !bits64::is_nan(game.wanted_paddle_x(moves)),
    ensures
        at_most(ZERO, clamped(game.wanted_paddle_x(moves), ZERO, moves.limit)),
        at_most(clamped(game.wanted_paddle_x(moves), ZERO, moves.limit), moves.limit),
{
}

/// Whether `x` is the wanted place, or the end of the screen that it lies beyond.
pub open spec fn is_kept_on_screen(wanted: u64, limit: u64, x: u64) -> bool {
    &&& at_most(0, wanted) && at_most(wanted, limit) ==> x == wanted
    &&& less(wanted, 0) ==> x == 0
    &&& less(limit, wanted) ==> x == limit
}

/// The paddle goes where it is steered, unless that is off the screen: to where
/// the pointer wants it, or else by the left move with only the left key down, by
/// the right move with only the right key down, by both with both, and nowhere
/// with none. Nothing else changes.
pub proof fn paddle_goes_where_it_is_steered(
    game: Game,
    moves: PaddleMoves,
    after: Game,
    action: UpdateAction,
)
    requires
        game.expects(UpdateAction::MeasurePaddle, UpdateEvent::PaddleMeasured { moves }),
        game.next(
            UpdateAction::MeasurePaddle,
            UpdateEvent::PaddleMeasured { moves },
            after,
            action,
        ),
    ensures
        action is MeasureBall,
        game.pointer_active ==> is_kept_on_screen(
            game.paddle_target_x,
            moves.limit,
            after.paddle_x,
        ),
        !game.pointer_active && game.input_left && !game.input_right ==> is_kept_on_screen(
            moves.left,
            moves.limit,
            after.paddle_x,
        ),
        !game.pointer_active && !game.input_left && game.input_right ==> is_kept_on_screen(
            moves.right,
            moves.limit,
            after.paddle_x,
        ),
        !game.pointer_active && game.input_left && game.input_right ==> is_kept_on_screen(
            moves.both,
            moves.limit,
            after.paddle_x,
        ),
        !game.pointer_active && !game.input_left && !game.input_right ==> is_kept_on_screen(
            game.paddle_x,
            moves.limit,
            after.paddle_x,
        ),
        (Game { paddle_x: game.paddle_x, ..after }) == game,
{
}

/// A ball that waits stays on the paddle, and one on its way flies on. Nothing
/// else changes.
pub proof fn ball_rests_or_flies(
    game: Game,
    rest: (u64, u64),
    flight: (u64, u64),
    after: Game,
    action: UpdateAction,
)
    requires
        game.next(
            UpdateAction::MeasureBall,
            UpdateEvent::BallMeasured { rest, flight },
            after,
            action,
        ),
    ensures
        action is MeasureWalls,
        !game.started ==> after.ball_x == rest.0 && after.ball_y == rest.1,
        game.started ==> after.ball_x == flight.0 && after.ball_y == flight.1,
        (Game { ball_x: game.ball_x, ball_y: game.ball_y, ..after }) == game,
{
}

/// The ball against the walls, as long as it is not lost. At the left wall it is
/// put there and flies right; at the right wall it is put there and flies left,
/// also when it was put at the left wall just before; at the ceiling it is put
/// there and flies down. It keeps its speed on both axes, and away from a wall its
/// place and direction too. Nothing else changes.
pub proof fn ball_bounces_off_the_walls(
    game: Game,
    sums: WallSums,
    after: Game,
    action: UpdateAction,
)
    requires
        game.wf(),
        game.next(
            UpdateAction::MeasureWalls,
            UpdateEvent::WallsMeasured { sums },
            after,
            action,
        ),
        !less(
            game.height,
            if at_most(sums.top_edge, 0) {
                sums.top_edge_at_top
            } else {
                sums.top_edge
            },
        ),
    ensures
        ({
            let left = at_most(sums.left_edge, 0);
            let right = at_most(
                game.width,
                if left {
                    sums.right_edge_at_left
                } else {
                    sums.right_edge
                },
            );
            let top = at_most(sums.top_edge, 0);
            &&& action is MeasureContact
            &&& right ==> after.ball_x == sums.right_stop && after.ball_vx >= 0x8000_0000_0000_0000
            &&& left && !right ==> after.ball_x == game.ball_r && after.ball_vx
                < 0x8000_0000_0000_0000
            &&& !left && !right ==> after.ball_x == game.ball_x && after.ball_vx == game.ball_vx
            &&& top ==> after.ball_y == game.ball_r && after.ball_vy < 0x8000_0000_0000_0000
            &&& !top ==> after.ball_y == game.ball_y && after.ball_vy == game.ball_vy
            &&& after.ball_vx == game.ball_vx || after.ball_vx == flipped(game.ball_vx)
            &&& after.ball_vy == game.ball_vy || after.ball_vy == flipped(game.ball_vy)
            &&& (Game {
                ball_x: game.ball_x,
                ball_y: game.ball_y,
                ball_vx: game.ball_vx,
                ball_vy: game.ball_vy,
                ..after
            }) == game
        }),
{
}

/// A ball is lost once its upper edge is below the screen. That costs a life, and
/// the last life the game: it starts over with three lives, no score, the first
/// speed and a whole wall. Either way the ball rests on the paddle and waits, and
/// nothing further is hit in the frame.
pub proof fn lost_balls_cost_a_life(
    game: Game,
    sums: WallSums,
    after: Game,
    action: UpdateAction,
)
    requires
        game.wf(),
        game.next(
            UpdateAction::MeasureWalls,
            UpdateEvent::WallsMeasured { sums },
            after,
            action,
        ),
        less(
            game.height,
            if at_most(sums.top_edge, 0) {
                sums.top_edge_at_top
            } else {
                sums.top_edge
            },
        ),
    ensures
        action is MoveParticles,
        !after.started,
        after.ball_x == sums.rest_x && after.ball_y == sums.rest_y,
        after.ball_vx == 0 && after.ball_vy == 0,
        game.lives > 1 ==> after.lives == game.lives - 1 && after.score == game.score
            && after.bricks@ == game.bricks@ && after.ball_speed == game.ball_speed,
        game.lives == 1 ==> after.lives == 3 && after.score == 0 && after.bricks@ == wall(
            game.columns@,
            game.brick_w,
        ) && after.ball_speed == 0x407a_4000_0000_0000,
        (Game {
            ball_x: game.ball_x,
            ball_y: game.ball_y,
            ball_vx: game.ball_vx,
            ball_vy: game.ball_vy,
            started: game.started,
            lives: game.lives,
            score: game.score,
            bricks: game.bricks,
            ball_speed: game.ball_speed,
            ..after
        }) == game,
{
}

/// The paddle catches a ball just when it falls, its lower edge is between the top
/// of the paddle and the reach below it, and its middle is between the ends of the
/// paddle, however fast it flies sideways. Nothing changes yet.
pub proof fn paddle_catches_falling_balls(
    game: Game,
    bottom: u64,
    reach: u64,
    paddle_right: u64,
    after: Game,
    action: UpdateAction,
)
    requires
        game.next(
            UpdateAction::MeasureContact,
            UpdateEvent::ContactMeasured { bottom, reach, paddle_right },
            after,
            action,
        ),
    ensures
        action is MeasureRebound <==> {
            &&& less(0, game.ball_vy)
            &&& at_most(game.paddle_y, bottom) && at_most(bottom, reach)
            &&& at_most(game.paddle_x, game.ball_x) && at_most(game.ball_x, paddle_right)
        },
        !(action is MeasureRebound) ==> action is MeasureBricks,
        after == game,
{
}

/// A caught ball is sent off by where it hit the paddle, from -1 to 1 and no
/// farther, and with the speed that it has, but at least the floor.
pub proof fn rebounds_are_limited(
    game: Game,
    offset: u64,
    speed: u64,
    floor: u64,
    after: Game,
    action: UpdateAction,
)
    requires
        game.next(
            UpdateAction::MeasureRebound,
            UpdateEvent::ReboundMeasured { offset, speed, floor },
            after,
            action,
        ),
    ensures
        after == game,
        action matches UpdateAction::Aim { offset: o, speed: s } && {
            &&& at_most(0xbff0_0000_0000_0000, offset) && at_most(offset, 0x3ff0_0000_0000_0000)
                ==> o == offset
            &&& less(offset, 0xbff0_0000_0000_0000) ==> o == 0xbff0_0000_0000_0000
            &&& less(0x3ff0_0000_0000_0000, offset) ==> o == 0x3ff0_0000_0000_0000
            &&& s == speed || s == floor
            &&& !bits64::is_nan(speed) ==> at_most(speed, s)
            &&& !bits64::is_nan(floor) ==> at_most(floor, s)
        },
{
}

/// A ball that was sent off has its new velocity and height; only the bricks are
/// left to look at. Nothing else changes.
pub proof fn rebounds_are_taken(
    game: Game,
    asked: UpdateAction,
    vx: u64,
    vy: u64,
    y: u64,
    after: Game,
    action: UpdateAction,
)
    requires
        game.next(asked, UpdateEvent::Aimed { vx, vy, y }, after, action),
    ensures
        action is MeasureBricks,
        after.ball_vx == vx && after.ball_vy == vy && after.ball_y == y,
        (Game { ball_vx: game.ball_vx, ball_vy: game.ball_vy, ball_y: game.ball_y, ..after })
            == game,
{
}

/// The brick that is hit is the first of those that stand and are no farther than
/// the reach. If there is none, the sparks come next: a trail first if the ball is
/// on its way. Nothing changes yet.
pub proof fn first_brick_in_reach_is_hit(
    game: Game,
    distances: Vec<u64>,
    reach: u64,
    after: Game,
    action: UpdateAction,
    j: int,
)
    requires
        game.next(
            UpdateAction::MeasureBricks,
            UpdateEvent::BricksMeasured { distances, reach },
            after,
            action,
        ),
        distances@.len() == game.bricks@.len(),
        0 <= j < game.bricks@.len(),
    ensures
        after == game,
        action matches UpdateAction::MeasureImpact { brick } ==> {
            &&& brick < game.bricks@.len()
            &&& game.bricks@[brick as int].alive
            &&& at_most(distances@[brick as int], reach)
        },
        game.bricks@[j].alive && at_most(distances@[j], reach) ==> (
        action matches UpdateAction::MeasureImpact { brick } && brick <= j),
        !(action is MeasureImpact) ==> (if game.started {
            action is MakeTrail
        } else {
            action is MoveParticles
        }),
{
    if game.bricks@[j].alive && at_most(distances@[j], reach) {
        assert(game.touches_brick(distances@, reach, j));
    }
}

/// A brick that is hit breaks, and no other. It scores a hundred. The ball turns
/// round sideways if it overlaps the brick less on that axis, and up or down
/// otherwise, and takes the raised speed. Nothing else changes.
pub proof fn hits_break_and_turn(
    game: Game,
    brick: usize,
    overlap_x: u64,
    overlap_y: u64,
    boosted: u64,
    after: Game,
    action: UpdateAction,
    j: int,
)
    requires
        game.wf(),
        game.expects(
            UpdateAction::MeasureImpact { brick },
            UpdateEvent::ImpactMeasured { overlap_x, overlap_y, boosted },
        ),
        game.next(
            UpdateAction::MeasureImpact { brick },
            UpdateEvent::ImpactMeasured { overlap_x, overlap_y, boosted },
            after,
            action,
        ),
        0 <= j < game.bricks@.len(),
    ensures
        action == (UpdateAction::MeasureSpeed { brick }),
        after.bricks@.len() == game.bricks@.len(),
        j != brick ==> after.bricks@[j] == game.bricks@[j],
        j == brick ==> !after.bricks@[j].alive && after.bricks@[j].x == game.bricks@[j].x
            && after.bricks@[j].y == game.bricks@[j].y && after.bricks@[j].hue
            == game.bricks@[j].hue && after.bricks@[j].w == game.bricks@[j].w
            && after.bricks@[j].h == game.bricks@[j].h,
        after.score == game.score + 100,
        after.ball_speed == boosted,
        less(overlap_x, overlap_y) ==> after.ball_vx == flipped(game.ball_vx) && after.ball_vy
            == game.ball_vy,
        !less(overlap_x, overlap_y) ==> after.ball_vx == game.ball_vx && after.ball_vy == flipped(
            game.ball_vy,
        ),
        (Game {
            bricks: game.bricks,
            score: game.score,
            ball_vx: game.ball_vx,
            ball_vy: game.ball_vy,
            ball_speed: game.ball_speed,
            ..after
        }) == game,
{
}

/// A ball that moves is brought to the speed of the game, and one that does not
/// stays still; the broken brick gives off its sparks next. Nothing else changes.
pub proof fn moving_balls_take_the_speed(
    game: Game,
    brick: usize,
    speed: u64,
    vx: u64,
    vy: u64,
    after: Game,
    action: UpdateAction,
)
    requires
        game.next(
            UpdateAction::MeasureSpeed { brick },
            UpdateEvent::SpeedMeasured { speed, vx, vy },
            after,
            action,
        ),
    ensures
        action == (UpdateAction::MakeBurst { brick }),
        less(0, speed) ==> after.ball_vx == vx && after.ball_vy == vy,
        !less(0, speed) ==> after.ball_vx == game.ball_vx && after.ball_vy == game.ball_vy,
        (Game { ball_vx: game.ball_vx, ball_vy: game.ball_vy, ..after }) == game,
{
}

/// The sparks of a brick come behind those that are there; if there are then more
/// than 260, the 80 oldest go. The sparks of the trail just come behind. Nothing
/// else changes.
pub proof fn new_sparks_come_last(
    game: Game,
    asked: UpdateAction,
    fresh: Vec<Particle>,
    after: Game,
    action: UpdateAction,
)
    ensures
        game.next(asked, UpdateEvent::BurstMade { burst: fresh }, after, action) ==> {
            let all = game.particles@ + fresh@;
            &&& all.len() <= 260 ==> after.particles@ == all
            &&& all.len() > 260 ==> after.particles@ == all.subrange(80, all.len() as int)
            &&& if game.started {
                action is MakeTrail
            } else {
                action is MoveParticles
            }
            &&& (Game { particles: game.particles, ..after }) == game
        },
        game.next(asked, UpdateEvent::TrailMade { trail: fresh }, after, action) ==> {
            &&& after.particles@ == game.particles@ + fresh@
            &&& action is MoveParticles
            &&& (Game { particles: game.particles, ..after }) == game
        },
{
}

/// Of the sparks that have moved, just those are kept that have some life left and
/// a radius above 0.4. Then the frame is over if a brick still stands, and the
/// next wall is due if none does. Nothing else changes.
pub proof fn sparks_go_out_and_walls_come_down(
    game: Game,
    moved: Vec<Particle>,
    after: Game,
    action: UpdateAction,
    p: Particle,
)
    requires
        game.next(
            UpdateAction::MoveParticles,
            UpdateEvent::ParticlesMoved { moved },
            after,
            action,
        ),
    ensures
        after.particles@.contains(p) <==> moved@.contains(p) && less(0, p.life) && less(
            0x3fd9_9999_9999_999a,
            p.radius,
        ),
        after.particles@.len() <= moved@.len(),
        (exists|i: int| 0 <= i < game.bricks@.len() && #[trigger] game.bricks@[i].alive)
            ==> action is Finish,
        !(exists|i: int| 0 <= i < game.bricks@.len() && #[trigger] game.bricks@[i].alive)
            ==> action is RaiseSpeed,
        (Game { particles: game.particles, ..after }) == game,
{
    let f = |q: Particle| crate::block_breaker::particles::glows(q);
    if moved@.contains(p) && f(p) {
        moved@.lemma_filter_contains(f, moved@.index_of(p));
    }
    if after.particles@.contains(p) {
        let i = after.particles@.index_of(p);
        moved@.lemma_filter_pred(f, i);
        moved@.lemma_filter_contains_rev(f, p);
    }
    moved@.lemma_filter_len(f);
    none_standing(game.bricks@);
}

/// In front of the next wall the ball has the raised speed and waits, and the wall
/// is whole; lives and score stay, and so does everything else. The frame is over.
pub proof fn next_wall_is_faced_at_rest(
    game: Game,
    speed: u64,
    after: Game,
    action: UpdateAction,
)
    requires
        game.next(
            UpdateAction::RaiseSpeed,
            UpdateEvent::SpeedRaised { speed },
            after,
            action,
        ),
    ensures
        action is Finish,
        after.ball_speed == speed,
        !after.started,
        after.bricks@ == wall(game.columns@, game.brick_w),
        (Game {
            ball_speed: game.ball_speed,
            started: game.started,
            bricks: game.bricks,
            ..after
        }) == game,
{
}

/// A broken brick gives off twelve sparks, and a flying ball leaves three behind.
/// What has moved are as many sparks as there were.
pub proof fn sparks_come_in_numbers(game: Game, asked: UpdateAction, sparks: Vec<Particle>)
    ensures
        game.expects(asked, UpdateEvent::BurstMade { burst: sparks }) ==> asked is MakeBurst
            && sparks@.len() == 12,
        game.expects(asked, UpdateEvent::TrailMade { trail: sparks }) ==> asked is MakeTrail
            && sparks@.len() == 3,
        game.expects(asked, UpdateEvent::ParticlesMoved { moved: sparks })
            ==> asked is MoveParticles && sparks@.len() == game.particles@.len(),
{
}

} // verus!
