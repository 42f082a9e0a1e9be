//! A box that can be placed, clamped to an arena and tested for collisions.

use crate::game::geometry::{boxes_overlap, clamp_to_axis, hits_wall, Rect};
use vstd::prelude::*;

verus! {

pub type Vec2d<T> = [T; 2];

/// The wall that stopped a box: `Horizontal` where its x coordinate was
/// clamped, `Vertical` where its y coordinate was.
#[derive(Debug, PartialEq, Eq, Structural)]
pub enum CollisionWall {
    Vertical,
    Horizontal,
}

/// The wall that a box of `rect`'s extents meets when it tries to stand at
/// `(x, y)` in an arena `height` by `width`. Where both coordinates are
/// clamped, the vertical wall is the one reported.
pub open spec fn wall_met(rect: Rect, x: int, y: int, height: int, width: int) -> Option<
    CollisionWall,
> {
    if hits_wall(y, rect.height, height) {
        Some(CollisionWall::Vertical)
    } else if hits_wall(x, rect.width, width) {
        Some(CollisionWall::Horizontal)
    } else {
        None
    }
}

/// A box with a position that moves and extents that stay as they were made.
#[derive(Debug, PartialEq, Eq, Structural)]
pub struct Object {
    x: i64,
    y: i64,
    height: i64,
    width: i64,
}

impl View for Object {
    type V = Rect;

    closed spec fn view(&self) -> Rect {
        Rect {
            x: self.x as int,
            y: self.y as int,
            height: self.height as int,
            width: self.width as int,
        }
    }
}

impl Object {
    #[verifier::type_invariant]
    spec fn positive_extents(self) -> bool {
        self.height > 0 && self.width > 0
    }

    pub fn new(top_left: Vec2d<i64>, height: i64, width: i64) -> (object: Object)
        requires
            height > 0,
            width > 0,
        ensures
            object@ == (Rect {
                x: top_left[0] as int,
                y: top_left[1] as int,
                height: height as int,
                width: width as int,
            }),
    {
        Object { x: top_left[0], y: top_left[1], height, width }
    }

    /// Moves the box to `position`, clamped to an arena `height` by `width`,
    /// writes the clamped position back and reports the wall that stopped
    /// the box, if one did.
    pub fn update_position_with_bounds(
        &mut self,
        position: &mut Vec2d<i64>,
        height: i64,
        width: i64,
    ) -> (wall: Option<CollisionWall>)
        ensures
            final(self)@ == old(self)@.settled(
                old(position)[0] as int,
                old(position)[1] as int,
                height as int,
                width as int,
            ),
            final(position)[0] == final(self)@.x,
            final(position)[1] == final(self)@.y,
            wall == wall_met(
                old(self)@,
                old(position)[0] as int,
                old(position)[1] as int,
                height as int,
                width as int,
            ),
    {
        proof {
            use_type_invariant(&*self);
        }
        let across = clamp_to_axis(position[0] as i128, self.width, width);
        let down = clamp_to_axis(position[1] as i128, self.height, height);
        position[0] = across.0;
        position[1] = down.0;
        self.x = across.0;
        self.y = down.0;
        if down.1 {
            Some(CollisionWall::Vertical)
        } else if across.1 {
            Some(CollisionWall::Horizontal)
        } else {
            None
        }
    }

    pub fn has_collided(&self, other: &Object) -> (hit: bool)
        ensures
            hit == self@.overlaps(other@),
    {
        boxes_overlap(
            (self.x, self.y, self.height, self.width),
            (other.x, other.y, other.height, other.width),
        )
    }

    pub fn get_x(&self) -> (x: i64)
        ensures
            x == self@.x,
    {
        self.x
    }

    pub fn get_y(&self) -> (y: i64)
        ensures
            y == self@.y,
    {
        self.y
    }

    pub fn get_height(&self) -> (height: i64)
        ensures
            height == self@.height,
            height > 0,
    {
        proof {
            use_type_invariant(self);
        }
        self.height
    }

    pub fn get_width(&self) -> (width: i64)
        ensures
            width == self@.width,
            width > 0,
    {
        proof {
            use_type_invariant(self);
        }
        self.width
    }

    /// The box as `[x, y, width, height]`.
    pub fn get_size(&self) -> (size: [i64; 4])
        ensures
            size[0] == self@.x,
            size[1] == self@.y,
            size[2] == self@.width,
            size[3] == self@.height,
    {
        [self.x, self.y, self.width, self.height]
    }

    pub fn set_x(&mut self, x: i64)
        ensures
            final(self)@ == (Rect { x: x as int, ..old(self)@ }),
    {
        proof {
            use_type_invariant(&*self);
        }
        self.x = x;
    }

    pub fn set_coords(&mut self, coords: Vec2d<i64>)
        ensures
            final(self)@ == (Rect { x: coords[0] as int, y: coords[1] as int, ..old(self)@ }),
    {
        proof {
            use_type_invariant(&*self);
        }
        self.x = coords[0];
        self.y = coords[1];
    }
}

} // verus!
