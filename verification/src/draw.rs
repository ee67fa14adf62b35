//! Draw operations handed to the graphics host, in fixed-point coordinates.

use vstd::prelude::*;
use crate::color::Rgba;

verus! {

/// One unit of screen distance, in fixed-point. Every coordinate, radius
/// and trigonometric sample in this crate is scaled by this factor, so the
/// host divides by it once when it turns an operation into a draw call.
pub const FP_ONE: i64 = 65536;

/// A primitive drawing operation. Coordinates and radii are in fixed-point
/// units of [`FP_ONE`]; lines are one screen unit wide.
#[derive(Clone, Copy, PartialEq, Eq, Structural, Debug)]
pub enum DrawOp {
    /// The outline of a circle.
    Outline { x: i64, y: i64, radius: i64, color: Rgba },
    /// A filled dot.
    Dot { x: i64, y: i64, radius: i64, color: Rgba },
    /// A straight line segment.
    Segment { x1: i64, y1: i64, x2: i64, y2: i64, color: Rgba },
}

} // verus!
