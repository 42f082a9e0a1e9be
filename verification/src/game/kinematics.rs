//! Motion of a box under velocity and acceleration, one tick at a time.

use crate::game::geometry::{boxes_overlap, clamp_to_axis, hits_wall, saturate, saturating, Rect};
use vstd::prelude::*;

verus! {

pub type Vec2d<T> = [T; 2];

/// The wall that stopped a box: `Horizontal` where its x coordinate was
/// clamped, `Vertical` where its y coordinate was.
#[derive(Debug, PartialEq, Eq, Structural)]
pub enum CollisionWall {
    Vertical,
    Horizontal,
}

/// The wall that a box of `rect`'s extents meets when it tries to stand at
/// `(x, y)` in an arena `height` by `width`. Where both coordinates are
/// clamped, the vertical wall is the one reported.
pub open spec fn wall_met(rect: Rect, x: int, y: int, height: int, width: int) -> Option<
    CollisionWall,
> {
    if hits_wall(y, rect.height, height) {
        Some(CollisionWall::Vertical)
    } else if hits_wall(x, rect.width, width) {
        Some(CollisionWall::Horizontal)
    } else {
        None
    }
}

/// A box with a position that moves and extents that stay as they were made.
#[derive(Clone, Copy, Debug, PartialEq, Eq, Structural)]
pub struct MotionObject {
    x: i64,
    y: i64,
    height: i64,
    width: i64,
}

/// A box in motion: where it is, how far it moves in a tick, and by how much
/// that changes in a tick.
pub struct Motion {
    pub object: Rect,
    pub velocity: (int, int),
    pub acceleration: (int, int),
}

impl Motion {
    /// Where the box tries to go in one tick: its position plus its velocity.
    pub open spec fn target(self) -> (int, int) {
        (self.object.x + self.velocity.0, self.object.y + self.velocity.1)
    }

    /// The motion one tick later in an arena `height` by `width`: the box
    /// moved by the velocity and clamped to the arena, the velocity changed by
    /// the acceleration.
    pub open spec fn integrated(self, height: int, width: int) -> Motion {
        Motion {
            object: self.object.settled(self.target().0, self.target().1, height, width),
            velocity: (
                saturate(self.velocity.0 + self.acceleration.0),
                saturate(self.velocity.1 + self.acceleration.1),
            ),
            acceleration: self.acceleration,
        }
    }

    /// The wall that the box meets during that tick, if any.
    pub open spec fn wall(self, height: int, width: int) -> Option<CollisionWall> {
        wall_met(self.object, self.target().0, self.target().1, height, width)
    }

    /// The motion `ticks` ticks later.
    pub open spec fn integrated_many(self, height: int, width: int, ticks: nat) -> Motion
        decreases ticks,
    {
        if ticks == 0 {
            self
        } else {
            self.integrated(height, width).integrated_many(height, width, (ticks - 1) as nat)
        }
    }

    /// Neither moving nor about to.
    pub open spec fn at_rest(self) -> bool {
        self.velocity == (0int, 0int) && self.acceleration == (0int, 0int)
    }

    /// Whether the box stands inside an arena `height` by `width`.
    pub open spec fn inside(self, height: int, width: int) -> bool {
        &&& 0 <= self.object.x <= width - self.object.width
        &&& 0 <= self.object.y <= height - self.object.height
    }
}

/// A box at rest inside the arena stays where it is and meets no wall,
/// however many ticks pass.
pub proof fn lemma_rest_stays(m: Motion, height: i64, width: i64, ticks: nat)
    requires
        m.object.well_formed(),
        m.at_rest(),
        m.inside(height as int, width as int),
    ensures
        m.integrated_many(height as int, width as int, ticks) == m,
        m.wall(height as int, width as int) is None,
    decreases ticks,
{
    assert(m.integrated(height as int, width as int) == m);
    if ticks > 0 {
        lemma_rest_stays(m, height, width, (ticks - 1) as nat);
    }
}

/// In an arena that the box fits in, a tick leaves the box inside it: a move
/// that meets no wall arrives where it aimed, a move past an end of an axis
/// stops at that end, at 0 or at the extent of the arena less that of the box.
pub proof fn lemma_move_stops_at_walls(m: Motion, height: i64, width: i64)
    requires
        m.object.well_formed(),
        m.object.width <= width,
        m.object.height <= height,
    ensures
        m.integrated(height as int, width as int).inside(height as int, width as int),
        ({
            let x = m.integrated(height as int, width as int).object.x;
            let aim = m.target().0;
            let last = width - m.object.width;
            if aim < 0 {
                x == 0
            } else if aim > last {
                x == last
            } else {
                x == aim
            }
        }),
        ({
            let y = m.integrated(height as int, width as int).object.y;
            let aim = m.target().1;
            let last = height - m.object.height;
            if aim < 0 {
                y == 0
            } else if aim > last {
                y == last
            } else {
                y == aim
            }
        }),
{
}

/// Position, velocity and acceleration of one box.
#[derive(Clone, Copy, Debug, PartialEq, Eq)]
pub struct MotionPhysics {
    object: MotionObject,
    velocity: Vec2d<i64>,
    acceleration: Vec2d<i64>,
}

impl View for MotionPhysics {
    type V = Motion;

    closed spec fn view(&self) -> Motion {
        Motion {
            object: self.object@,
            velocity: (self.velocity[0] as int, self.velocity[1] as int),
            acceleration: (self.acceleration[0] as int, self.acceleration[1] as int),
        }
    }
}

impl View for MotionObject {
    type V = Rect;

    closed spec fn view(&self) -> Rect {
        Rect { x: self.x as int, y: self.y as int, height: self.height as int, width: self.width as int }
    }
}

impl MotionObject {
    #[verifier::type_invariant]
    spec fn positive_extents(self) -> bool {
        self.height > 0 && self.width > 0
    }

    pub fn new(top_left: Vec2d<i64>, height: i64, width: i64) -> (object: MotionObject)
        requires
            height > 0,
            width > 0,
        ensures
            object@ == (Rect {
                x: top_left[0] as int,
                y: top_left[1] as int,
                height: height as int,
                width: width as int,
            }),
    {
        MotionObject { x: top_left[0], y: top_left[1], height, width }
    }

    fn update_position_with_bounds(
        &mut self,
        position: &mut Vec2d<i64>,
        height: i64,
        width: i64,
    ) -> (wall: Option<CollisionWall>)
        ensures
            final(self)@ == old(self)@.settled(old(position)[0] as int, old(position)[1] as int, height as int, width as int),
            final(position)[0] == final(self)@.x,
            final(position)[1] == final(self)@.y,
            wall == wall_met(old(self)@, old(position)[0] as int, old(position)[1] as int, height as int, width as int),
    {
        proof {
            use_type_invariant(&*self);
        }
        let across = clamp_to_axis(position[0] as i128, self.width, width);
        let down = clamp_to_axis(position[1] as i128, self.height, height);
        position[0] = across.0;
        position[1] = down.0;
        self.x = across.0;
        self.y = down.0;
        if down.1 {
            Some(CollisionWall::Vertical)
        } else if across.1 {
            Some(CollisionWall::Horizontal)
        } else {
            None
        }
    }

    pub fn has_collided(&self, other: &MotionObject) -> (hit: bool)
        ensures
            hit == self@.overlaps(other@),
    {
        boxes_overlap(
            (self.x, self.y, self.height, self.width),
            (other.x, other.y, other.height, other.width),
        )
    }

    pub fn get_x(&self) -> (x: i64)
        ensures
            x == self@.x,
    {
        self.x
    }

    pub fn get_height(&self) -> (height: i64)
        ensures
            height == self@.height,
            height > 0,
    {
        proof {
            use_type_invariant(self);
        }
        self.height
    }

    pub fn get_width(&self) -> (width: i64)
        ensures
            width == self@.width,
            width > 0,
    {
        proof {
            use_type_invariant(self);
        }
        self.width
    }

    /// The box as `[x, y, width, height]`.
    pub fn get_size(&self) -> (size: [i64; 4])
        ensures
            size[0] == self@.x,
            size[1] == self@.y,
            size[2] == self@.width,
            size[3] == self@.height,
    {
        [self.x, self.y, self.width, self.height]
    }
}

impl MotionPhysics {
    pub fn new(position: Vec2d<i64>, height: i64, width: i64) -> (motion: MotionPhysics)
        requires
            height > 0,
            width > 0,
        ensures
            motion@ == (Motion {
                object: Rect {
                    x: position[0] as int,
                    y: position[1] as int,
                    height: height as int,
                    width: width as int,
                },
                velocity: (0, 0),
                acceleration: (0, 0),
            }),
    {
        MotionPhysics {
            object: MotionObject::new(position, height, width),
            velocity: [0, 0],
            acceleration: [0, 0],
        }
    }

    /// Advances the motion by one tick in an arena `height` by `width` and
    /// reports the wall that stopped the box, if one did.
    pub fn update_with_bounds(&mut self, height: i64, width: i64) -> (wall: Option<CollisionWall>)
        ensures
            final(self)@ == old(self)@.integrated(height as int, width as int),
            wall == old(self)@.wall(height as int, width as int),
    {
        proof {
            use_type_invariant(&self.object);
        }
        let mut new_position = [
            saturating(self.object.x as i128 + self.velocity[0] as i128),
            saturating(self.object.y as i128 + self.velocity[1] as i128),
        ];
        self.set_velocity(
            [
                saturating(self.velocity[0] as i128 + self.acceleration[0] as i128),
                saturating(self.velocity[1] as i128 + self.acceleration[1] as i128),
            ],
        );
        self.object.update_position_with_bounds(&mut new_position, height, width)
    }

    pub fn set_x(&mut self, x_coord: i64)
        ensures
            final(self)@ == (Motion {
                object: Rect { x: x_coord as int, ..old(self)@.object },
                ..old(self)@
            }),
    {
        proof {
            use_type_invariant(&self.object);
        }
        self.object.x = x_coord;
    }

    pub fn set_coords(&mut self, coords: Vec2d<i64>)
        ensures
            final(self)@ == (Motion {
                object: Rect { x: coords[0] as int, y: coords[1] as int, ..old(self)@.object },
                ..old(self)@
            }),
    {
        proof {
            use_type_invariant(&self.object);
        }
        self.object.x = coords[0];
        self.object.y = coords[1];
    }

    pub fn get_motion_object(&self) -> (object: &MotionObject)
        ensures
            object@ == self@.object,
    {
        &self.object
    }

    pub fn get_velocity(&self) -> (velocity: Vec2d<i64>)
        ensures
            velocity[0] == self@.velocity.0,
            velocity[1] == self@.velocity.1,
    {
        self.velocity
    }

    pub fn set_acceleration(&mut self, acceleration: Vec2d<i64>)
        ensures
            final(self)@ == (Motion {
                acceleration: (acceleration[0] as int, acceleration[1] as int),
                ..old(self)@
            }),
    {
        self.acceleration = acceleration;
    }

    pub fn set_velocity(&mut self, velocity: Vec2d<i64>)
        ensures
            final(self)@ == (Motion { velocity: (velocity[0] as int, velocity[1] as int), ..old(self)@ }),
    {
        self.velocity = velocity;
    }
}

} // verus!
