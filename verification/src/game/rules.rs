//! The rules of the match, stated over the motion of its entities: where the
//! entities start, how a tick changes them, when a goal falls, and what holds
//! of every match.

use crate::game::controls::{steering, Keys};
use crate::game::geometry::Rect;
use crate::game::kinematics::{CollisionWall, Motion};
use crate::game::sqrt::{floor_sqrt, is_floor_sqrt, lemma_floor_sqrt_exists};
use crate::game::{
    PaddleType, BALL_SIZE, BALL_VELOCITY_MAX, BALL_VELOCITY_Y, GOAL_BUFFER, GOAL_MARGIN,
    PADDLE_HEIGHT, PADDLE_WIDTH, PONG_HEIGHT, PONG_WIDTH, SPEED_TOLERANCE,
};
use vstd::prelude::*;

verus! {

/// A paddle as it stands at the start of a rally.
pub open spec fn fresh_paddle(side: PaddleType) -> Motion {
    Motion {
        object: Rect {
            x: match side {
                PaddleType::Left => GOAL_BUFFER - PADDLE_WIDTH,
                PaddleType::Right => PONG_WIDTH - GOAL_BUFFER,
            },
            y: (PONG_HEIGHT - PADDLE_HEIGHT) / 2,
            height: PADDLE_HEIGHT as int,
            width: PADDLE_WIDTH as int,
        },
        velocity: (0, 0),
        acceleration: (0, 0),
    }
}

/// What holds of every paddle: its extents are the configured ones, it
/// stands inside the arena, and nothing accelerates it.
pub open spec fn paddle_valid(m: Motion) -> bool {
    &&& m.object.height == PADDLE_HEIGHT
    &&& m.object.width == PADDLE_WIDTH
    &&& 0 <= m.object.x <= PONG_WIDTH - PADDLE_WIDTH
    &&& 0 <= m.object.y <= PONG_HEIGHT - PADDLE_HEIGHT
    &&& m.acceleration == (0int, 0int)
}

/// The vertical speeds that a launch or a bounce may give the ball.
pub open spec fn in_launch_range(y: int) -> bool {
    -BALL_VELOCITY_Y <= y < BALL_VELOCITY_Y
}

/// The horizontal speed that spends what the vertical speed `y` leaves of the
/// speed budget.
pub open spec fn x_speed(y: int) -> int {
    floor_sqrt(BALL_VELOCITY_MAX - y * y)
}

/// The velocity `v` is on the speed budget: the square of its length is the
/// budget, less the tolerance at most.
pub open spec fn on_budget(v: (int, int)) -> bool {
    BALL_VELOCITY_MAX - SPEED_TOLERANCE <= v.0 * v.0 + v.1 * v.1 <= BALL_VELOCITY_MAX
}

/// The velocity of a ball launched with the vertical speed `y`: it flies left
/// where it flies up, and right otherwise.
pub open spec fn launch_velocity(y: int) -> (int, int) {
    (if y < 0 { -x_speed(y) } else { x_speed(y) }, y)
}

/// A ball as it stands at the start of a rally, launched with the vertical
/// speed `y`.
pub open spec fn fresh_ball(y: int) -> Motion {
    Motion {
        object: Rect {
            x: PONG_WIDTH / 2,
            y: PONG_HEIGHT / 2,
            height: BALL_SIZE as int,
            width: BALL_SIZE as int,
        },
        velocity: launch_velocity(y),
        acceleration: (0, 0),
    }
}

/// What holds of every ball: its extents are the configured ones, nothing
/// accelerates it, and its velocity is on the speed budget.
pub open spec fn ball_valid(m: Motion) -> bool {
    &&& m.object.height == BALL_SIZE
    &&& m.object.width == BALL_SIZE
    &&& m.acceleration == (0int, 0int)
    &&& on_budget(m.velocity)
}

/// The ball one tick later: moved and clamped like any box, and turned back
/// on the axis of the wall that stopped it.
pub open spec fn ball_moved(m: Motion) -> Motion {
    let next = m.integrated(PONG_HEIGHT as int, PONG_WIDTH as int);
    match m.wall(PONG_HEIGHT as int, PONG_WIDTH as int) {
        Some(CollisionWall::Vertical) => Motion {
            velocity: (next.velocity.0, -next.velocity.1),
            ..next
        },
        Some(CollisionWall::Horizontal) => Motion {
            velocity: (-next.velocity.0, next.velocity.1),
            ..next
        },
        None => next,
    }
}

/// A velocity on the speed budget is no faster than 7 pixels a tick on
/// either axis.
pub proof fn lemma_budget_bounds_speed(v: (int, int))
    requires
        on_budget(v),
    ensures
        -7_000_000_000_000 <= v.0 <= 7_000_000_000_000,
        -7_000_000_000_000 <= v.1 <= 7_000_000_000_000,
{
    lemma_square_bounds(v.0, v.1);
    lemma_square_bounds(v.1, v.0);
}

proof fn lemma_square_bounds(a: int, b: int)
    by (nonlinear_arith)
    requires
        a * a + b * b <= 49_000_000_000_000_000_000_000_000,
    ensures
        -7_000_000_000_000 <= a <= 7_000_000_000_000,
{
    assert(b * b >= 0);
    if a > 7_000_000_000_000 {
        assert(a * a >= 7_000_000_000_001 * 7_000_000_000_001);
    }
    if a < -7_000_000_000_000 {
        assert((-a) * (-a) >= 7_000_000_000_001 * 7_000_000_000_001);
        assert((-a) * (-a) == a * a);
    }
}

/// Turning a velocity back on either axis keeps it on the speed budget.
pub proof fn lemma_turning_keeps_budget(v: (int, int))
    requires
        on_budget(v),
    ensures
        on_budget((-v.0, v.1)),
        on_budget((v.0, -v.1)),
{
    assert((-v.0) * (-v.0) == v.0 * v.0) by (nonlinear_arith);
    assert((-v.1) * (-v.1) == v.1 * v.1) by (nonlinear_arith);
}

/// Every launch and every bounce spends the speed budget: with a vertical
/// speed in the launch range and the horizontal speed that goes with it, in
/// either direction, the square of the length of the velocity is the budget,
/// less the tolerance at most.
pub proof fn lemma_speed_on_budget(y: int)
    requires
        in_launch_range(y),
    ensures
        on_budget((x_speed(y), y)),
        on_budget((-x_speed(y), y)),
        on_budget(launch_velocity(y)),
        4_898_979_485_566 <= x_speed(y) <= 7_000_000_000_000,
{
    assert(0 <= y * y <= 25_000_000_000_000_000_000_000_000) by (nonlinear_arith)
        requires
            -5_000_000_000_000 <= y < 5_000_000_000_000,
    ;
    lemma_floor_sqrt_exists(BALL_VELOCITY_MAX - y * y);
    let r = x_speed(y);
    assert(is_floor_sqrt(BALL_VELOCITY_MAX - y * y, r));
    if r > 7_000_000_000_000 {
        assert(r * r >= 7_000_000_000_001 * 7_000_000_000_001) by (nonlinear_arith)
            requires
                r >= 7_000_000_000_001,
        ;
    }
    if r < 4_898_979_485_566 {
        assert((r + 1) * (r + 1) <= 4_898_979_485_566 * 4_898_979_485_566) by (nonlinear_arith)
            requires
                0 <= r + 1 <= 4_898_979_485_566,
        ;
    }
    assert((r + 1) * (r + 1) == r * r + 2 * r + 1) by (nonlinear_arith);
    assert((-r) * (-r) == r * r) by (nonlinear_arith);
}

/// The ball after the right paddle had its say: where the two collide, the
/// ball leaves to the left at the vertical speed `y`, from the paddle's left
/// edge.
pub open spec fn off_right_paddle(ball: Motion, paddle: Motion, y: int) -> Motion {
    if ball.object.overlaps(paddle.object) {
        Motion {
            object: Rect { x: paddle.object.x, ..ball.object },
            velocity: (-x_speed(y), y),
            ..ball
        }
    } else {
        ball
    }
}

/// The ball after the left paddle had its say: where the two collide, the
/// ball leaves to the right at the vertical speed `y`, from the paddle's
/// right edge.
pub open spec fn off_left_paddle(ball: Motion, paddle: Motion, y: int) -> Motion {
    if ball.object.overlaps(paddle.object) {
        Motion {
            object: Rect { x: paddle.object.x + paddle.object.width, ..ball.object },
            velocity: (x_speed(y), y),
            ..ball
        }
    } else {
        ball
    }
}

/// Whether a ball at `x` has reached the left end of the arena.
pub open spec fn in_left_goal(x: int) -> bool {
    x <= GOAL_MARGIN
}

/// Whether a ball at `x` has reached the right end of the arena.
pub open spec fn in_right_goal(x: int) -> bool {
    x >= PONG_WIDTH - BALL_SIZE - GOAL_MARGIN
}

/// The state of a match: the two scores and the three entities.
pub struct Match {
    pub score_player_one: nat,
    pub score_player_two: nat,
    pub paddle_left: Motion,
    pub paddle_right: Motion,
    pub ball: Motion,
}

impl Match {
    /// A match at 0 : 0 with every entity where a rally starts, the ball
    /// launched with the vertical speed `launch_y`.
    pub open spec fn kickoff(launch_y: int) -> Match {
        Match {
            score_player_one: 0,
            score_player_two: 0,
            paddle_left: fresh_paddle(PaddleType::Left),
            paddle_right: fresh_paddle(PaddleType::Right),
            ball: fresh_ball(launch_y),
        }
    }

    /// The match with every entity advanced by one tick.
    pub open spec fn moved(self) -> Match {
        Match {
            paddle_left: self.paddle_left.integrated(PONG_HEIGHT as int, PONG_WIDTH as int),
            paddle_right: self.paddle_right.integrated(PONG_HEIGHT as int, PONG_WIDTH as int),
            ball: ball_moved(self.ball),
            ..self
        }
    }

    /// The match with the ball sent back by the paddles that it collides
    /// with, at the vertical speed `bounce_y`: the right paddle first, then
    /// the left one.
    pub open spec fn resolved(self, bounce_y: int) -> Match {
        Match {
            ball: off_left_paddle(
                off_right_paddle(self.ball, self.paddle_right, bounce_y),
                self.paddle_left,
                bounce_y,
            ),
            ..self
        }
    }

    /// The match with every entity back where a rally starts, the ball
    /// launched with the vertical speed `launch_y`.
    pub open spec fn restarted(self, launch_y: int) -> Match {
        Match {
            paddle_left: fresh_paddle(PaddleType::Left),
            paddle_right: fresh_paddle(PaddleType::Right),
            ball: fresh_ball(launch_y),
            ..self
        }
    }

    /// The match after the goal check: a ball at the left end scores for
    /// player two, a ball at the right end for player one, and either starts
    /// the next rally.
    pub open spec fn judged(self, launch_y: int) -> Match {
        if in_left_goal(self.ball.object.x) {
            Match { score_player_two: self.score_player_two + 1, ..self.restarted(launch_y) }
        } else if in_right_goal(self.ball.object.x) {
            Match { score_player_one: self.score_player_one + 1, ..self.restarted(launch_y) }
        } else {
            self
        }
    }

    /// The match one tick later, where a bounce off a paddle takes the
    /// vertical speed `bounce_y` and a launch after a goal `launch_y`.
    pub open spec fn ticked(self, bounce_y: int, launch_y: int) -> Match {
        self.moved().resolved(bounce_y).judged(launch_y)
    }

    /// The match with its scores as the counters show them.
    pub open spec fn on_the_board(self) -> Match {
        Match {
            score_player_one: counted(self.score_player_one),
            score_player_two: counted(self.score_player_two),
            ..self
        }
    }

    /// The match with each paddle given the velocity that its player's keys
    /// ask for.
    pub open spec fn steered(self, keys: Keys) -> Match {
        Match {
            paddle_left: steered(
                self.paddle_left,
                steering(keys.left_down, keys.left_up, keys.left_let_go),
            ),
            paddle_right: steered(
                self.paddle_right,
                steering(keys.right_down, keys.right_up, keys.right_let_go),
            ),
            ..self
        }
    }

    /// The match after one frame: untouched where the escape key ends the
    /// game, and otherwise steered by the keys and one tick later.
    pub open spec fn framed(self, keys: Keys, bounce_y: int, launch_y: int) -> Match {
        if keys.escape {
            self
        } else {
            self.steered(keys).ticked(bounce_y, launch_y).on_the_board()
        }
    }
}

/// A paddle that the next tick leaves clear of the left end of the arena:
/// it aims at a place to the right of every ball that stands in the goal.
pub open spec fn keeps_off_left_end(m: Motion) -> bool {
    m.target().0 > GOAL_MARGIN + BALL_SIZE
}

/// The score that the counter shows: it stops at the largest number that it
/// can hold.
pub open spec fn counted(score: nat) -> nat {
    if score > usize::MAX {
        usize::MAX as nat
    } else {
        score
    }
}

/// The motion with the velocity that the keys ask for, if they ask for one.
pub open spec fn steered(m: Motion, asked: Option<(int, int)>) -> Motion {
    match asked {
        Some(velocity) => Motion { velocity, ..m },
        None => m,
    }
}

/// What holds of the entities of every match.
pub open spec fn match_valid(s: Match) -> bool {
    paddle_valid(s.paddle_left) && paddle_valid(s.paddle_right) && ball_valid(s.ball)
}

/// A tick keeps the entities valid: the paddles inside the arena, the ball
/// on the speed budget.
pub proof fn lemma_tick_keeps_valid(s: Match, bounce_y: int, launch_y: int)
    requires
        match_valid(s),
        in_launch_range(bounce_y),
        in_launch_range(launch_y),
    ensures
        match_valid(s.ticked(bounce_y, launch_y)),
{
    lemma_budget_bounds_speed(s.ball.velocity);
    lemma_turning_keeps_budget(s.ball.velocity);
    lemma_speed_on_budget(bounce_y);
    lemma_speed_on_budget(launch_y);
}

/// A ball that a paddle sends back leaves on the speed budget, away from
/// that paddle.
pub proof fn lemma_bounce_on_budget(ball: Motion, paddle: Motion, y: int)
    requires
        in_launch_range(y),
        ball.object.overlaps(paddle.object),
    ensures
        on_budget(off_right_paddle(ball, paddle, y).velocity),
        off_right_paddle(ball, paddle, y).velocity.0 < 0,
        on_budget(off_left_paddle(ball, paddle, y).velocity),
        off_left_paddle(ball, paddle, y).velocity.0 > 0,
{
    lemma_speed_on_budget(y);
}

/// Scores never fall, and a tick adds at most one goal.
pub proof fn lemma_scores_never_fall(s: Match, bounce_y: int, launch_y: int)
    ensures
        ({
            let next = s.ticked(bounce_y, launch_y);
            let goals = (next.score_player_one - s.score_player_one) + (next.score_player_two
                - s.score_player_two);
            &&& next.score_player_one >= s.score_player_one
            &&& next.score_player_two >= s.score_player_two
            &&& goals == 0 || goals == 1
            &&& goals == 0 ==> next == s.moved().resolved(bounce_y)
            &&& goals == 1 ==> next.ball == fresh_ball(launch_y)
        }),
{
}

/// A ball that the tick leaves at the left end of the arena scores for
/// player two, and for nobody else, and every entity goes back to where a
/// rally starts.
pub proof fn lemma_goal_restarts(s: Match, bounce_y: int, launch_y: int)
    requires
        in_left_goal(s.moved().resolved(bounce_y).ball.object.x),
    ensures
        s.ticked(bounce_y, launch_y) == (Match {
            score_player_two: s.score_player_two + 1,
            ..s.restarted(launch_y)
        }),
        s.ticked(bounce_y, launch_y).score_player_one == s.score_player_one,
        s.ticked(bounce_y, launch_y).ball == fresh_ball(launch_y),
        s.ticked(bounce_y, launch_y).paddle_left == fresh_paddle(PaddleType::Left),
        s.ticked(bounce_y, launch_y).paddle_right == fresh_paddle(PaddleType::Right),
{
}

/// A ball at the left end of the arena that does not fly to the right, with
/// both paddles clear of that end, concedes a goal in the next tick: player
/// two gets one point, player one none, and every entity goes back to where
/// a rally starts.
pub proof fn lemma_ball_at_left_end_scores(s: Match, bounce_y: int, launch_y: int)
    requires
        match_valid(s),
        keeps_off_left_end(s.paddle_left),
        keeps_off_left_end(s.paddle_right),
        s.ball.object.x < GOAL_MARGIN,
        s.ball.velocity.0 <= 0,
    ensures
        s.ticked(bounce_y, launch_y).score_player_two == s.score_player_two + 1,
        s.ticked(bounce_y, launch_y).score_player_one == s.score_player_one,
        s.ticked(bounce_y, launch_y).ball == fresh_ball(launch_y),
        s.ticked(bounce_y, launch_y).paddle_left == fresh_paddle(PaddleType::Left),
        s.ticked(bounce_y, launch_y).paddle_right == fresh_paddle(PaddleType::Right),
{
    lemma_budget_bounds_speed(s.ball.velocity);
    let m = s.moved();
    assert(m.ball.object.x <= GOAL_MARGIN);
    assert(m.paddle_left.object.x > GOAL_MARGIN + BALL_SIZE);
    assert(m.paddle_right.object.x > GOAL_MARGIN + BALL_SIZE);
    assert(!m.ball.object.overlaps(m.paddle_right.object));
    assert(!m.ball.object.overlaps(m.paddle_left.object));
    lemma_goal_restarts(s, bounce_y, launch_y);
}

/// A paddle where its side puts it, with no horizontal velocity, is clear of
/// the left end of the arena.
pub proof fn lemma_paddle_on_its_line_keeps_off(m: Motion, side: PaddleType)
    requires
        m.object.x == fresh_paddle(side).object.x,
        m.velocity.0 == 0,
    ensures
        keeps_off_left_end(m),
{
}

/// While a counter has room, the board shows the score as it is.
pub proof fn lemma_board_is_exact_below_the_limit(s: Match, bounce_y: int, launch_y: int)
    requires
        s.score_player_one < usize::MAX,
        s.score_player_two < usize::MAX,
    ensures
        s.ticked(bounce_y, launch_y).on_the_board() == s.ticked(bounce_y, launch_y),
{
}

} // verus!
