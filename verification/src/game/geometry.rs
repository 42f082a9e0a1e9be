//! Boxes on the playing field: the overlap test and the clamp to the arena.

use vstd::prelude::*;

verus! {

/// An axis-aligned box: its top-left corner and its extents.
pub struct Rect {
    pub x: int,
    pub y: int,
    pub height: int,
    pub width: int,
}

impl Rect {
    /// Both extents are positive.
    pub open spec fn well_formed(self) -> bool {
        self.height > 0 && self.width > 0
    }

    /// The x coordinate of the right edge.
    pub open spec fn right(self) -> int {
        self.x + self.width
    }

    /// The y coordinate of the bottom edge.
    pub open spec fn bottom(self) -> int {
        self.y + self.height
    }

    /// On the x axis the test is inclusive: the left or the right edge of
    /// `self` lies within the closed span of `other`.
    pub open spec fn meets_across(self, other: Rect) -> bool {
        ||| other.x <= self.right() <= other.right()
        ||| other.x <= self.x <= other.right()
    }

    /// On the y axis the test is strict: the top or the bottom edge of `self`
    /// lies properly inside the span of `other`.
    pub open spec fn meets_down(self, other: Rect) -> bool {
        ||| other.y < self.bottom() < other.bottom()
        ||| other.y < self.y < other.bottom()
    }

    /// The box after a move towards `(x, y)` in an arena `height` by `width`:
    /// each coordinate clamped to the arena and narrowed to an `i64`.
    pub open spec fn settled(self, x: int, y: int, height: int, width: int) -> Rect {
        Rect {
            x: saturate(clamped(x, self.width, width)),
            y: saturate(clamped(y, self.height, height)),
            ..self
        }
    }

    /// Whether `self` reaches into `other`: an edge of `self` meets the span
    /// of `other` on both axes.
    pub open spec fn reaches(self, other: Rect) -> bool {
        self.meets_across(other) && self.meets_down(other)
    }

    /// Whether the two boxes collide: one of them reaches into the other.
    pub open spec fn overlaps(self, other: Rect) -> bool {
        self.reaches(other) || other.reaches(self)
    }
}

/// Two boxes collide or not whichever of them asks.
pub proof fn lemma_overlap_symmetric(a: Rect, b: Rect)
    ensures
        a.overlaps(b) == b.overlaps(a),
{
}

/// A box that lies inside another one collides with it, unless the two stand
/// in the same rows.
pub proof fn lemma_nested_boxes_collide(inner: Rect, outer: Rect)
    requires
        inner.well_formed(),
        outer.x <= inner.x,
        inner.right() <= outer.right(),
        outer.y <= inner.y,
        inner.bottom() <= outer.bottom(),
        !(inner.y == outer.y && inner.bottom() == outer.bottom()),
    ensures
        inner.overlaps(outer),
        outer.overlaps(inner),
{
}

/// Boxes that stand in the same rows do not collide, wherever their columns
/// are.
pub proof fn lemma_boxes_in_the_same_rows_do_not_collide(a: Rect, b: Rect)
    requires
        a.y == b.y,
        a.height == b.height,
    ensures
        !a.overlaps(b),
{
}

/// The boundary on the y axis: a box that ends where the other begins, or
/// above it, does not collide with it, whichever of them asks.
pub proof fn lemma_stacked_boxes_do_not_collide(a: Rect, b: Rect)
    requires
        a.well_formed(),
        b.well_formed(),
        a.bottom() <= b.y,
    ensures
        !a.overlaps(b),
        !b.overlaps(a),
{
}

/// The boundary on the x axis: boxes with a gap between their columns do not
/// collide, whichever of them asks.
pub proof fn lemma_boxes_apart_do_not_collide(a: Rect, b: Rect)
    requires
        a.well_formed(),
        b.well_formed(),
        a.right() < b.x,
    ensures
        !a.overlaps(b),
        !b.overlaps(a),
{
}

/// The boundary on the x axis: for boxes that touch side by side, with no
/// gap and no shared column, the rows alone decide.
pub proof fn lemma_boxes_side_by_side_collide_by_rows(a: Rect, b: Rect)
    requires
        a.well_formed(),
        b.well_formed(),
        a.right() == b.x,
    ensures
        a.overlaps(b) == (a.meets_down(b) || b.meets_down(a)),
{
}

/// The value nearest to `v` that an `i64` can hold.
pub open spec fn saturate(v: int) -> int {
    if v < i64::MIN {
        i64::MIN as int
    } else if v > i64::MAX {
        i64::MAX as int
    } else {
        v
    }
}

/// Narrows `v` to an `i64`, stopping at the ends of the range.
pub fn saturating(v: i128) -> (r: i64)
    ensures
        r == saturate(v as int),
{
    if v < i64::MIN as i128 {
        i64::MIN
    } else if v > i64::MAX as i128 {
        i64::MAX
    } else {
        v as i64
    }
}

/// Where a coordinate `p` of a box `size` long comes to rest on an axis that
/// runs from 0 to `extent`: no lower than 0 and then no higher than
/// `extent - size`. Where the box is longer than the axis, the upper bound
/// wins.
pub open spec fn clamped(p: int, size: int, extent: int) -> int {
    let low = if p < 0 { 0 } else { p };
    if low > extent - size {
        extent - size
    } else {
        low
    }
}

/// Whether a box `size` long that tries to stand at `p` runs into an end of
/// an axis that runs from 0 to `extent`.
pub open spec fn hits_wall(p: int, size: int, extent: int) -> bool {
    p < 0 || p > extent - size
}

/// A coordinate that meets no wall stays; one that meets a wall comes to rest
/// at 0 or at `extent - size`, and, where the box fits on the axis, at 0 from
/// below and at `extent - size` from above.
pub proof fn lemma_clamp_is_exact(p: int, size: int, extent: int)
    ensures
        !hits_wall(p, size, extent) ==> clamped(p, size, extent) == p,
        hits_wall(p, size, extent) ==> clamped(p, size, extent) == 0 || clamped(p, size, extent)
            == extent - size,
        size <= extent && p < 0 ==> clamped(p, size, extent) == 0,
        size <= extent && p > extent - size ==> clamped(p, size, extent) == extent - size,
{
}

/// Clamping twice is clamping once, and a clamped coordinate meets no wall
/// where the box fits on the axis.
pub proof fn lemma_clamp_is_idempotent(p: int, size: int, extent: int)
    ensures
        clamped(clamped(p, size, extent), size, extent) == clamped(p, size, extent),
        size <= extent ==> !hits_wall(clamped(p, size, extent), size, extent),
{
}

/// Clamps the coordinate `p` to the axis and tells whether it had to move.
/// The result is narrowed to an `i64`.
pub fn clamp_to_axis(p: i128, size: i64, extent: i64) -> (r: (i64, bool))
    ensures
        r.0 == saturate(clamped(p as int, size as int, extent as int)),
        r.1 == hits_wall(p as int, size as int, extent as int),
{
    let limit: i128 = extent as i128 - size as i128;
    let mut q: i128 = p;
    let mut hit = false;
    if q < 0 {
        q = 0;
        hit = true;
    }
    if q > limit {
        q = limit;
        hit = true;
    }
    (saturating(q), hit)
}

/// The overlap test on the corners and extents of two boxes.
pub fn boxes_overlap(a: (i64, i64, i64, i64), b: (i64, i64, i64, i64)) -> (hit: bool)
    ensures
        hit == (Rect {
            x: a.0 as int,
            y: a.1 as int,
            height: a.2 as int,
            width: a.3 as int,
        }).overlaps(
            (Rect { x: b.0 as int, y: b.1 as int, height: b.2 as int, width: b.3 as int }),
        ),
{
    let x: i128 = a.0 as i128;
    let y: i128 = a.1 as i128;
    let x2: i128 = a.0 as i128 + a.3 as i128;
    let y2: i128 = a.1 as i128 + a.2 as i128;
    let other_x: i128 = b.0 as i128;
    let other_y: i128 = b.1 as i128;
    let other_x2: i128 = b.0 as i128 + b.3 as i128;
    let other_y2: i128 = b.1 as i128 + b.2 as i128;
    let down = (other_y < y2 && y2 < other_y2) || (other_y < y && y < other_y2);
    let across = (other_x <= x2 && x2 <= other_x2) || (other_x <= x && x <= other_x2);
    let other_down = (y < other_y2 && other_y2 < y2) || (y < other_y && other_y < y2);
    let other_across = (x <= other_x2 && other_x2 <= x2) || (x <= other_x && other_x <= x2);
    (across && down) || (other_across && other_down)
}

} // verus!
