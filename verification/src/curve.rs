//! A traced curve: the growing path of colored points swept out by one
//! row/column pair of driver markers.

use vstd::prelude::*;
use crate::color::{Rgba, lerp, lerp_spec, white};
use crate::draw::{DrawOp, FP_ONE};

verus! {

/// One vertex of a traced curve, in fixed-point coordinates, colored by the
/// blend of the contributing row and column circle colors at the moment the
/// point was sampled.
#[derive(Clone, Copy, PartialEq, Eq, Structural, Debug)]
pub struct ColoredPoint {
    pub x: i64,
    pub y: i64,
    pub color: Rgba,
}

impl ColoredPoint {
    /// Builds a point from its coordinates and color.
    pub fn new(x: i64, y: i64, color: Rgba) -> (p: ColoredPoint)
        ensures
            p == (ColoredPoint { x, y, color }),
    {
        ColoredPoint { x, y, color }
    }
}

/// A Lissajous curve under construction. `cur_x`/`cur_y` and the two pending
/// colors are staging fields, written once per frame (by the column pass and
/// the row pass respectively) before [`Curve::add`] commits them into `path`
/// as one new point.
pub struct Curve {
    /// The committed points of the curve, oldest first.
    pub path: Vec<ColoredPoint>,
    /// The pending x coordinate of the next point, in fixed-point units.
    pub cur_x: i64,
    /// The pending y coordinate of the next point, in fixed-point units.
    pub cur_y: i64,
    /// The color of the row circle that will tint the next point.
    pub color_x: Rgba,
    /// The color of the column circle that will tint the next point.
    pub color_y: Rgba,
}

/// The point that [`Curve::add`] commits: the staged coordinates, colored by
/// the blend of the two staged colors.
pub open spec fn pending_point(c: Curve) -> ColoredPoint {
    ColoredPoint { x: c.cur_x, y: c.cur_y, color: lerp_spec(c.color_x, c.color_y) }
}

/// A freshly created curve: no committed points, pending point at the
/// origin, both pending colors white.
pub open spec fn fresh(c: Curve) -> bool {
    &&& c.path@ == Seq::<ColoredPoint>::empty()
    &&& c.cur_x == 0
    &&& c.cur_y == 0
    &&& c.color_x == white()
    &&& c.color_y == white()
}

/// The effect of [`Curve::reset`]: `c_new` is `c_old` with every committed
/// point removed and the staging fields untouched.
pub open spec fn cleared(c_new: Curve, c_old: Curve) -> bool {
    &&& c_new.path@ == Seq::<ColoredPoint>::empty()
    &&& c_new.cur_x == c_old.cur_x
    &&& c_new.cur_y == c_old.cur_y
    &&& c_new.color_x == c_old.color_x
    &&& c_new.color_y == c_old.color_y
}

/// The effect of [`Curve::set_x`]: `c_new` is `c_old` with the pending x
/// coordinate and its color replaced.
pub open spec fn x_staged(c_new: Curve, c_old: Curve, value: i64, color: Rgba) -> bool {
    &&& c_new.cur_x == value
    &&& c_new.color_x == color
    &&& c_new.path@ == c_old.path@
    &&& c_new.cur_y == c_old.cur_y
    &&& c_new.color_y == c_old.color_y
}

/// The effect of [`Curve::set_y`]: `c_new` is `c_old` with the pending y
/// coordinate and its color replaced.
pub open spec fn y_staged(c_new: Curve, c_old: Curve, value: i64, color: Rgba) -> bool {
    &&& c_new.cur_y == value
    &&& c_new.color_y == color
    &&& c_new.path@ == c_old.path@
    &&& c_new.cur_x == c_old.cur_x
    &&& c_new.color_x == c_old.color_x
}

/// The effect of [`Curve::add`]: `c_new` is `c_old` with its pending point
/// committed at the end of the path and the staging fields untouched.
pub open spec fn point_added(c_new: Curve, c_old: Curve) -> bool {
    &&& c_new.path@ == c_old.path@.push(pending_point(c_old))
    &&& c_new.cur_x == c_old.cur_x
    &&& c_new.cur_y == c_old.cur_y
    &&& c_new.color_x == c_old.color_x
    &&& c_new.color_y == c_old.color_y
}

/// The line segment from point `i` of `path` to its successor, wrapping from
/// the last point back to the first, colored by the destination point.
pub open spec fn segment_op(path: Seq<ColoredPoint>, i: int) -> DrawOp
    recommends
        0 <= i < path.len(),
{
    let p = path[i];
    let q = path[(i + 1) % (path.len() as int)];
    DrawOp::Segment { x1: p.x, y1: p.y, x2: q.x, y2: q.y, color: q.color }
}

impl Curve {
    /// Creates an empty curve with white pending colors and the pending
    /// point at the origin.
    pub fn new() -> (c: Curve)
        ensures
            fresh(c),
    {
        Curve {
            path: Vec::new(),
            cur_x: 0,
            cur_y: 0,
            color_x: Rgba::white(),
            color_y: Rgba::white(),
        }
    }

    /// Removes every committed point; the staging fields are untouched, so
    /// the next [`Curve::add`] commits the same pending point.
    pub fn reset(&mut self)
        ensures
            cleared(*final(self), *old(self)),
    {
        self.path.clear();
    }

    /// Stages the x coordinate of the next point together with the color of
    /// the row circle that shares this curve's row.
    pub fn set_x(&mut self, value: i64, color: Rgba)
        ensures
            x_staged(*final(self), *old(self), value, color),
    {
        self.cur_x = value;
        self.color_x = color;
    }

    /// Stages the y coordinate of the next point together with the color of
    /// the column circle that shares this curve's column.
    pub fn set_y(&mut self, value: i64, color: Rgba)
        ensures
            y_staged(*final(self), *old(self), value, color),
    {
        self.cur_y = value;
        self.color_y = color;
    }

    /// Commits the staged coordinates as a new point at the end of the path,
    /// colored by the blend of the two staged colors.
    pub fn add(&mut self)
        ensures
            point_added(*final(self), *old(self)),
    {
        let color = lerp(&self.color_x, &self.color_y);
        let point = ColoredPoint::new(self.cur_x, self.cur_y, color);
        self.path.push(point);
    }

    /// The draw operations that render this curve: one segment per point,
    /// the last segment closing the loop back to the first point, each
    /// colored by its destination point, then a small white highlight dot
    /// on the most recent point. The segments (the closing one included)
    /// need at least two points; a one-point path still draws its highlight
    /// dot, and an empty path draws nothing.
    pub fn show(&self) -> (ops: Vec<DrawOp>)
        ensures
            self.path@.len() == 0 ==> ops@ == Seq::<DrawOp>::empty(),
            self.path@.len() == 1 ==> ops@.len() == 1 && ops@[0] == (DrawOp::Dot {
                x: self.path@[0].x,
                y: self.path@[0].y,
                radius: (2 * FP_ONE) as i64,
                color: white(),
            }),
            self.path@.len() >= 2 ==> {
                &&& ops@.len() == self.path@.len() + 1
                &&& forall|i: int|
                    0 <= i < self.path@.len() ==> ops@[i] == segment_op(self.path@, i)
                &&& ops@[self.path@.len() as int] == (DrawOp::Dot {
                    x: self.path@.last().x,
                    y: self.path@.last().y,
                    radius: (2 * FP_ONE) as i64,
                    color: white(),
                })
            },
    {
        let mut ops: Vec<DrawOp> = Vec::new();
        let len = self.path.len();
        if len == 0 {
            return ops;
        }
        if len >= 2 {
            for i in 0..len
                invariant
                    len == self.path@.len(),
                    2 <= len,
                    ops@.len() == i,
                    forall|k: int| 0 <= k < i ==> ops@[k] == segment_op(self.path@, k),
            {
                let j = (i + 1) % len;
                let p = self.path[i];
                let q = self.path[j];
                ops.push(DrawOp::Segment { x1: p.x, y1: p.y, x2: q.x, y2: q.y, color: q.color });
            }
        }
        let last = self.path[len - 1];
        ops.push(DrawOp::Dot { x: last.x, y: last.y, radius: 2 * FP_ONE, color: Rgba::white() });
        ops
    }
}

} // verus!
