//! From the state of a player's two keys to the velocity of that player's
//! paddle.

use crate::game::PADDLE_VELOCITY;
use vstd::prelude::*;

verus! {

/// The keys that matter to the match, as they are in one frame: for each
/// player whether the down key is held, whether the up key is held, and
/// whether either of the two has just been let go.
#[derive(Clone, Copy, Debug)]
pub struct Keys {
    pub escape: bool,
    pub left_down: bool,
    pub left_up: bool,
    pub left_let_go: bool,
    pub right_down: bool,
    pub right_up: bool,
    pub right_let_go: bool,
}

/// The velocity that a player's keys ask of the paddle in this frame, if they
/// ask for any: a key let go stops the paddle; failing that the up key, held,
/// drives it up; failing that the down key, held, drives it down.
pub open spec fn steering(down_held: bool, up_held: bool, let_go: bool) -> Option<(int, int)> {
    if let_go {
        Some((0int, 0int))
    } else if up_held {
        Some((0int, -PADDLE_VELOCITY as int))
    } else if down_held {
        Some((0int, PADDLE_VELOCITY as int))
    } else {
        None
    }
}

/// The velocity to set on a paddle in a frame in which the player holds the
/// down key (`down_held`), holds the up key (`up_held`), or has just let go
/// of either (`let_go`); `None` where the paddle keeps its velocity.
pub fn steer(down_held: bool, up_held: bool, let_go: bool) -> (velocity: Option<[i64; 2]>)
    ensures
        match velocity {
            Some(v) => steering(down_held, up_held, let_go) == Some((v[0] as int, v[1] as int)),
            None => steering(down_held, up_held, let_go) is None,
        },
{
    let mut velocity: Option<[i64; 2]> = None;
    if down_held {
        velocity = Some([0, PADDLE_VELOCITY]);
    }
    if up_held {
        velocity = Some([0, -PADDLE_VELOCITY]);
    }
    if let_go {
        velocity = Some([0, 0]);
    }
    velocity
}

} // verus!
