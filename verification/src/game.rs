//! The match: its constants, its entities and the per-tick update.

use crate::game::controls::{steer, Keys};
use crate::game::geometry::Rect;
use crate::game::kinematics::{CollisionWall, Motion, MotionObject, MotionPhysics, Vec2d};
use crate::game::rules::{
    ball_moved, ball_valid, fresh_ball, fresh_paddle, in_launch_range, lemma_budget_bounds_speed,
    lemma_speed_on_budget, lemma_turning_keeps_budget, match_valid, on_budget, paddle_valid,
    x_speed, Match,
};
use crate::game::sqrt::integer_sqrt;
use rand::Rng;
use vstd::prelude::*;

pub mod controls;
pub mod geometry;
pub mod kinematics;
pub mod object;
pub mod rules;
pub mod sqrt;

verus! {

/// Fixed-point scale: units per pixel.
pub const UNITS_PER_PIXEL: i64 = 1_000_000_000_000;

/// Distance that a paddle under control moves in a tick.
pub const PADDLE_VELOCITY: i64 = 7_000_000_000_000;

/// Bound on the vertical speed that a launch or a bounce gives the ball.
pub const BALL_VELOCITY_Y: i64 = 5_000_000_000_000;

/// The ball's speed budget: the square of its speed, 49 square pixels.
pub const BALL_VELOCITY_MAX: i128 = 49_000_000_000_000_000_000_000_000;

/// How far below the budget the square of the ball's speed may fall, the
/// horizontal speed being a whole number of units: a billionth of a square
/// pixel.
pub const SPEED_TOLERANCE: i128 = 1_000_000_000_000_000;

pub const PADDLE_HEIGHT: i64 = 38_000_000_000_000;

pub const PADDLE_WIDTH: i64 = 8_000_000_000_000;

pub const BALL_SIZE: i64 = 5_000_000_000_000;

/// Distance between a goal line and the face of the paddle that guards it.
pub const GOAL_BUFFER: i64 = 40_000_000_000_000;

pub const PONG_WIDTH: i64 = 1_024_000_000_000_000;

pub const PONG_HEIGHT: i64 = 512_000_000_000_000;

/// How near to an end of the arena the ball has to come for a goal.
pub const GOAL_MARGIN: i64 = 1_000_000_000_000;

/// Red, green, blue and opacity of every entity.
pub const GAME_OBJECT_COLOR: [u8; 4] = [255, 255, 255, 255];

/// What the renderer and the match loop ask of an entity.
pub trait GameObject {
    /// The entity's box, velocity and acceleration.
    spec fn motion(&self) -> Motion;

    /// The entity's box as `[x, y, width, height]`.
    fn get_size(&self) -> (size: [i64; 4])
        ensures
            size[0] == self.motion().object.x,
            size[1] == self.motion().object.y,
            size[2] == self.motion().object.width,
            size[3] == self.motion().object.height,
    ;

    fn get_color(&self) -> (color: [u8; 4])
        ensures
            color@ == GAME_OBJECT_COLOR@,
    ;

    /// The entity's motion one tick later.
    spec fn moved(&self) -> Motion;

    /// Advances the entity by one tick.
    fn update(&mut self)
        ensures
            final(self).motion() == old(self).moved(),
    ;
}

pub enum PaddleType {
    Left,
    Right,
}

pub struct Paddle {
    motion: MotionPhysics,
    color: [u8; 4],
}

impl View for Paddle {
    type V = Motion;

    closed spec fn view(&self) -> Motion {
        self.motion@
    }
}

impl Paddle {
    #[verifier::type_invariant]
    spec fn inv(self) -> bool {
        paddle_valid(self.motion@) && self.color@ == GAME_OBJECT_COLOR@
    }

    pub fn new(p_type: PaddleType) -> (paddle: Paddle)
        ensures
            paddle@ == fresh_paddle(p_type),
    {
        match p_type {
            PaddleType::Left => Paddle {
                motion: MotionPhysics::new(
                    [GOAL_BUFFER - PADDLE_WIDTH, (PONG_HEIGHT - PADDLE_HEIGHT) / 2],
                    PADDLE_HEIGHT,
                    PADDLE_WIDTH,
                ),
                color: GAME_OBJECT_COLOR,
            },
            PaddleType::Right => Paddle {
                motion: MotionPhysics::new(
                    [PONG_WIDTH - GOAL_BUFFER, (PONG_HEIGHT - PADDLE_HEIGHT) / 2],
                    PADDLE_HEIGHT,
                    PADDLE_WIDTH,
                ),
                color: GAME_OBJECT_COLOR,
            },
        }
    }

    pub fn set_velocity(&mut self, velocity: Vec2d<i64>)
        ensures
            final(self)@ == (Motion { velocity: (velocity[0] as int, velocity[1] as int), ..old(self)@ }),
    {
        proof {
            use_type_invariant(&*self);
        }
        let mut motion = self.motion;
        motion.set_velocity(velocity);
        self.motion = motion;
    }

    pub fn get_width(&self) -> (width: i64)
        ensures
            width == self@.object.width,
            width == PADDLE_WIDTH,
    {
        proof {
            use_type_invariant(self);
        }
        self.motion.get_motion_object().get_width()
    }

    pub fn get_x(&self) -> (x: i64)
        ensures
            x == self@.object.x,
            0 <= x <= PONG_WIDTH - PADDLE_WIDTH,
    {
        proof {
            use_type_invariant(self);
        }
        self.motion.get_motion_object().get_x()
    }

    pub fn get_object(&self) -> (object: &MotionObject)
        ensures
            object@ == self@.object,
            paddle_valid(self@),
    {
        proof {
            use_type_invariant(self);
        }
        self.motion.get_motion_object()
    }
}

impl GameObject for Paddle {
    open spec fn motion(&self) -> Motion {
        self@
    }

    fn get_size(&self) -> (size: [i64; 4]) {
        self.motion.get_motion_object().get_size()
    }

    fn get_color(&self) -> (color: [u8; 4]) {
        proof {
            use_type_invariant(self);
        }
        self.color
    }

    /// A paddle moves by its velocity and stops at the walls.
    open spec fn moved(&self) -> Motion {
        self@.integrated(PONG_HEIGHT as int, PONG_WIDTH as int)
    }

    fn update(&mut self) {
        proof {
            use_type_invariant(&*self);
        }
        let mut motion = self.motion;
        motion.update_with_bounds(PONG_HEIGHT, PONG_WIDTH);
        self.motion = motion;
    }
}

/// The horizontal speed that goes with the vertical speed `y`.
pub fn horizontal_speed(y: i64) -> (speed: i64)
    requires
        in_launch_range(y as int),
    ensures
        speed == x_speed(y as int),
{
    proof {
        lemma_speed_on_budget(y as int);
    }
    assert(0 <= y * y <= 25_000_000_000_000_000_000_000_000) by (nonlinear_arith)
        requires
            -5_000_000_000_000 <= y < 5_000_000_000_000,
    ;
    let left: i128 = BALL_VELOCITY_MAX - (y as i128) * (y as i128);
    integer_sqrt(left as u128) as i64
}

pub struct Ball {
    motion: MotionPhysics,
    color: [u8; 4],
}

impl View for Ball {
    type V = Motion;

    closed spec fn view(&self) -> Motion {
        self.motion@
    }
}

impl Ball {
    #[verifier::type_invariant]
    spec fn inv(self) -> bool {
        ball_valid(self.motion@) && self.color@ == GAME_OBJECT_COLOR@
    }

    /// A ball at the centre of the arena, launched with the vertical speed
    /// `y_velocity`.
    pub fn launch(y_velocity: i64) -> (ball: Ball)
        requires
            in_launch_range(y_velocity as int),
        ensures
            ball@ == fresh_ball(y_velocity as int),
            on_budget(ball@.velocity),
    {
        proof {
            lemma_speed_on_budget(y_velocity as int);
        }
        let speed = horizontal_speed(y_velocity);
        let mut motion = MotionPhysics::new([PONG_WIDTH / 2, PONG_HEIGHT / 2], BALL_SIZE, BALL_SIZE);
        motion.set_velocity([if y_velocity < 0 { -speed } else { speed }, y_velocity]);
        Ball { motion, color: GAME_OBJECT_COLOR }
    }

    /// A ball at the centre of the arena, launched at a random angle.
    pub fn new() -> (ball: Ball)
        ensures
            exists|y: int| in_launch_range(y) && ball@ == #[trigger] fresh_ball(y),
            on_budget(ball@.velocity),
    {
        let y_velocity = random_in_range(-BALL_VELOCITY_Y, BALL_VELOCITY_Y);
        Ball::launch(y_velocity)
    }

    pub fn set_x(&mut self, x: i64)
        ensures
            final(self)@ == (Motion { object: Rect { x: x as int, ..old(self)@.object }, ..old(self)@ }),
    {
        proof {
            use_type_invariant(&*self);
        }
        let mut motion = self.motion;
        motion.set_x(x);
        self.motion = motion;
    }

    /// Gives the ball a velocity that is on the speed budget.
    pub fn set_velocity(&mut self, velocity: Vec2d<i64>)
        requires
            on_budget((velocity[0] as int, velocity[1] as int)),
        ensures
            final(self)@ == (Motion { velocity: (velocity[0] as int, velocity[1] as int), ..old(self)@ }),
    {
        proof {
            use_type_invariant(&*self);
        }
        let mut motion = self.motion;
        motion.set_velocity(velocity);
        self.motion = motion;
    }

    pub fn get_velocity_x(&self) -> (vx: i64)
        ensures
            vx == self@.velocity.0,
            -7_000_000_000_000 <= vx <= 7_000_000_000_000,
    {
        proof {
            use_type_invariant(self);
            lemma_budget_bounds_speed(self@.velocity);
        }
        self.motion.get_velocity()[0]
    }

    /// The ball's velocity, which is on the speed budget.
    pub fn get_velocity(&self) -> (velocity: Vec2d<i64>)
        ensures
            velocity[0] == self@.velocity.0,
            velocity[1] == self@.velocity.1,
            on_budget(self@.velocity),
    {
        proof {
            use_type_invariant(self);
        }
        self.motion.get_velocity()
    }

    pub fn get_x(&self) -> (x: i64)
        ensures
            x == self@.object.x,
    {
        self.motion.get_motion_object().get_x()
    }

    pub fn get_object(&self) -> (object: &MotionObject)
        ensures
            object@ == self@.object,
            ball_valid(self@),
    {
        proof {
            use_type_invariant(self);
        }
        self.motion.get_motion_object()
    }
}

impl GameObject for Ball {
    open spec fn motion(&self) -> Motion {
        self@
    }

    fn get_size(&self) -> (size: [i64; 4]) {
        self.motion.get_motion_object().get_size()
    }

    fn get_color(&self) -> (color: [u8; 4]) {
        proof {
            use_type_invariant(self);
        }
        self.color
    }

    /// The ball moves by its velocity; a wall that stops it turns it back.
    open spec fn moved(&self) -> Motion {
        ball_moved(self@)
    }

    fn update(&mut self) {
        proof {
            use_type_invariant(&*self);
            lemma_budget_bounds_speed(self@.velocity);
            lemma_turning_keeps_budget(self@.velocity);
        }
        let mut motion = self.motion;
        match motion.update_with_bounds(PONG_HEIGHT, PONG_WIDTH) {
            Some(CollisionWall::Vertical) => {
                let velocity = motion.get_velocity();
                motion.set_velocity([velocity[0], -velocity[1]]);
            },
            Some(CollisionWall::Horizontal) => {
                let velocity = motion.get_velocity();
                motion.set_velocity([-velocity[0], velocity[1]]);
            },
            None => {},
        }
        self.motion = motion;
    }
}

pub struct Pong {
    score_player_one: usize,
    score_player_two: usize,
    paddle_left: Paddle,
    paddle_right: Paddle,
    ball: Ball,
}

impl View for Pong {
    type V = Match;

    closed spec fn view(&self) -> Match {
        Match {
            score_player_one: self.score_player_one as nat,
            score_player_two: self.score_player_two as nat,
            paddle_left: self.paddle_left@,
            paddle_right: self.paddle_right@,
            ball: self.ball@,
        }
    }
}

impl Pong {
    /// A match at 0 : 0 with the ball launched at a random angle.
    pub fn new() -> (pong: Pong)
        ensures
            exists|y: int| in_launch_range(y) && pong@ == #[trigger] Match::kickoff(y),
            match_valid(pong@),
    {
        let ball = Ball::new();
        let ghost y = choose|y: int| in_launch_range(y) && ball@ == fresh_ball(y);
        let pong = Pong::with_entities(
            Paddle::new(PaddleType::Left),
            Paddle::new(PaddleType::Right),
            ball,
        );
        assert(pong@ == Match::kickoff(y));
        pong
    }

    /// A match at 0 : 0 between the given entities.
    pub fn with_entities(paddle_left: Paddle, paddle_right: Paddle, ball: Ball) -> (pong: Pong)
        ensures
            pong@ == (Match {
                score_player_one: 0,
                score_player_two: 0,
                paddle_left: paddle_left@,
                paddle_right: paddle_right@,
                ball: ball@,
            }),
            match_valid(pong@),
    {
        proof {
            use_type_invariant(&paddle_left);
            use_type_invariant(&paddle_right);
            use_type_invariant(&ball);
        }
        Pong { score_player_one: 0, score_player_two: 0, paddle_left, paddle_right, ball }
    }

    pub fn get_ball(&self) -> (ball: &Ball)
        ensures
            ball@ == self@.ball,
    {
        &self.ball
    }

    /// The paddle on the given side.
    pub fn get_paddle(&self, side: PaddleType) -> (paddle: &Paddle)
        ensures
            paddle@ == (match side {
                PaddleType::Left => self@.paddle_left,
                PaddleType::Right => self@.paddle_right,
            }),
    {
        match side {
            PaddleType::Left => &self.paddle_left,
            PaddleType::Right => &self.paddle_right,
        }
    }

    pub fn get_player_one_score(&self) -> (score: usize)
        ensures
            score == self@.score_player_one,
    {
        self.score_player_one
    }

    pub fn get_player_two_score(&self) -> (score: usize)
        ensures
            score == self@.score_player_two,
    {
        self.score_player_two
    }

    /// Advances the match by one tick, with random angles for a bounce off a
    /// paddle and for the launch after a goal.
    pub fn update(&mut self)
        ensures
            exists|bounce_y: int, launch_y: int|
                in_launch_range(bounce_y) && in_launch_range(launch_y) && final(self)@
                    == #[trigger] old(self)@.ticked(bounce_y, launch_y).on_the_board(),
            match_valid(final(self)@),
    {
        let bounce_y = random_in_range(-BALL_VELOCITY_Y, BALL_VELOCITY_Y);
        let launch_y = random_in_range(-BALL_VELOCITY_Y, BALL_VELOCITY_Y);
        self.advance(bounce_y, launch_y);
    }

    /// Advances the match by one tick: moves the entities, lets the paddles
    /// send the ball back at the vertical speed `bounce_y`, and after a goal
    /// counts it and starts the next rally with a ball launched at
    /// `launch_y`. A counter that is full stays as it is.
    pub fn advance(&mut self, bounce_y: i64, launch_y: i64)
        requires
            in_launch_range(bounce_y as int),
            in_launch_range(launch_y as int),
        ensures
            final(self)@ == old(self)@.ticked(bounce_y as int, launch_y as int).on_the_board(),
            match_valid(final(self)@),
    {
        self.paddle_left.update();
        self.paddle_right.update();
        self.ball.update();
        self.resolve_collisions(bounce_y);
        if self.ball.get_x() <= GOAL_MARGIN {
            if self.score_player_two < usize::MAX {
                self.score_player_two += 1;
            }
            self.reset_to_initial_conditions(launch_y);
        } else if self.ball.get_x() >= PONG_WIDTH - BALL_SIZE - GOAL_MARGIN {
            if self.score_player_one < usize::MAX {
                self.score_player_one += 1;
            }
            self.reset_to_initial_conditions(launch_y);
        }
        proof {
            use_type_invariant(&self.paddle_left);
            use_type_invariant(&self.paddle_right);
            use_type_invariant(&self.ball);
        }
    }

    /// Plays one frame with the keys as they are: the escape key ends the
    /// game before anything moves; otherwise the keys steer the paddles and
    /// the match advances by one tick, with `bounce_y` and `launch_y` as in
    /// `advance`. Tells whether the game goes on.
    pub fn frame(&mut self, keys: Keys, bounce_y: i64, launch_y: i64) -> (go_on: bool)
        requires
            in_launch_range(bounce_y as int),
            in_launch_range(launch_y as int),
        ensures
            go_on == !keys.escape,
            final(self)@ == old(self)@.framed(keys, bounce_y as int, launch_y as int),
            match_valid(final(self)@),
    {
        proof {
            use_type_invariant(&self.paddle_left);
            use_type_invariant(&self.paddle_right);
            use_type_invariant(&self.ball);
        }
        if keys.escape {
            return false;
        }
        match steer(keys.left_down, keys.left_up, keys.left_let_go) {
            Some(velocity) => self.update_left_paddle_velocity(velocity),
            None => {},
        }
        match steer(keys.right_down, keys.right_up, keys.right_let_go) {
            Some(velocity) => self.update_right_paddle_velocity(velocity),
            None => {},
        }
        self.advance(bounce_y, launch_y);
        true
    }

    /// Plays one frame as `frame` does, with random angles for a bounce off
    /// a paddle and for the launch after a goal.
    pub fn play_frame(&mut self, keys: Keys) -> (go_on: bool)
        ensures
            go_on == !keys.escape,
            exists|bounce_y: int, launch_y: int|
                in_launch_range(bounce_y) && in_launch_range(launch_y) && final(self)@
                    == #[trigger] old(self)@.framed(keys, bounce_y, launch_y),
            match_valid(final(self)@),
    {
        let bounce_y = random_in_range(-BALL_VELOCITY_Y, BALL_VELOCITY_Y);
        let launch_y = random_in_range(-BALL_VELOCITY_Y, BALL_VELOCITY_Y);
        self.frame(keys, bounce_y, launch_y)
    }

    pub fn update_left_paddle_velocity(&mut self, velocity: Vec2d<i64>)
        ensures
            final(self)@ == (Match {
                paddle_left: Motion {
                    velocity: (velocity[0] as int, velocity[1] as int),
                    ..old(self)@.paddle_left
                },
                ..old(self)@
            }),
    {
        self.paddle_left.set_velocity(velocity);
    }

    pub fn update_right_paddle_velocity(&mut self, velocity: Vec2d<i64>)
        ensures
            final(self)@ == (Match {
                paddle_right: Motion {
                    velocity: (velocity[0] as int, velocity[1] as int),
                    ..old(self)@.paddle_right
                },
                ..old(self)@
            }),
    {
        self.paddle_right.set_velocity(velocity);
    }

    pub fn get_entities(&self) -> (entities: Vec<Box<&dyn GameObject>>)
        ensures
            entities.len() == 3,
            entities[0].motion() == self@.paddle_right,
            entities[1].motion() == self@.paddle_left,
            entities[2].motion() == self@.ball,
    {
        vec![Box::new(&self.paddle_right), Box::new(&self.paddle_left), Box::new(&self.ball)]
    }

    fn resolve_collisions(&mut self, bounce_y: i64)
        requires
            in_launch_range(bounce_y as int),
        ensures
            final(self)@ == old(self)@.resolved(bounce_y as int),
    {
        proof {
            lemma_speed_on_budget(bounce_y as int);
        }
        let speed = horizontal_speed(bounce_y);
        if self.ball.get_object().has_collided(self.paddle_right.get_object()) {
            self.ball.set_velocity([-speed, bounce_y]);
            self.ball.set_x(self.paddle_right.get_x());
        }
        if self.ball.get_object().has_collided(self.paddle_left.get_object()) {
            self.ball.set_velocity([speed, bounce_y]);
            self.ball.set_x(self.paddle_left.get_width() + self.paddle_left.get_x());
        }
    }

    fn reset_to_initial_conditions(&mut self, launch_y: i64)
        requires
            in_launch_range(launch_y as int),
        ensures
            final(self)@ == old(self)@.restarted(launch_y as int),
    {
        self.ball = Ball::launch(launch_y);
        self.paddle_right = Paddle::new(PaddleType::Right);
        self.paddle_left = Paddle::new(PaddleType::Left);
    }
}

/// Draws an integer from `low..high` with `rand`: `Rng::gen_range` on the
/// generator that `thread_rng` hands out. `gen_range` panics on an empty
/// range, so the range has to hold a number; what it returns lies in the
/// range, and nothing more is known of it. The generator seeds itself from
/// the operating system when a thread first asks for it, and panics where
/// the system gives it no seed.
#[verifier::external_body]
fn random_in_range(low: i64, high: i64) -> (r: i64)
    requires
        low < high,
    ensures
        low <= r < high,
{
    rand::thread_rng().gen_range(low..high)
}

} // verus!
