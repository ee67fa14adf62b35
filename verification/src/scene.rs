//! The scene: a square grid of driver circles and traced curves, with the
//! per-frame marker sampling, point accumulation, and angle progression that
//! animate them.
//!
//! The global angle is carried as a whole number of steps, each one
//! revolution divided by [`STEPS_PER_TURN`] (the angle shrinks by pi/400 per
//! frame, so a full revolution of 2*pi is 800 steps). The host computes the
//! cosine and sine of a marker's angle and hands them in as fixed-point
//! [`TrigSample`] values scaled by [`FP_ONE`]; everything else — which
//! harmonic each circle runs at, where each marker sits for given samples,
//! which point every curve gains, and when all paths are cleared — is exact
//! integer arithmetic and is verified here.

use vstd::prelude::*;
use vstd::arithmetic::div_mod::{lemma_div_is_ordered, lemma_multiply_divide_lt};
use crate::color::{Rgba, white, lerp_spec};
use crate::curve::{Curve, ColoredPoint, fresh, cleared, x_staged, y_staged, point_added};
use crate::draw::{DrawOp, FP_ONE};

verus! {

/// Side length of one grid cell, in screen units.
pub const CELL: u64 = 80;

/// Number of angle steps in one full revolution: the angle shrinks by
/// pi/400 each frame, so 2*pi is covered after exactly 800 steps.
pub const STEPS_PER_TURN: u32 = 800;

/// Upper bound on a driver circle's center coordinates; every viewport a
/// `u32` can describe keeps its grid well below this.
pub const MAX_CENTER: u64 = 0x2_0000_0000;

/// A driver circle on the row or column axis, with its rotating marker's
/// orbit radius and its hue. Coordinates are in plain (unscaled) screen
/// units.
#[derive(Clone, Copy, PartialEq, Eq, Structural, Debug)]
pub struct Circle {
    /// X coordinate of the center.
    pub x: u64,
    /// Y coordinate of the center.
    pub y: u64,
    /// Radius at which the marker orbits the center.
    pub d: u64,
    /// Color of the circle's outline, also the hue it contributes to curves.
    pub color: Rgba,
}

/// A cosine/sine pair for one marker angle, in fixed-point units of
/// [`FP_ONE`] (so each lies between `-FP_ONE` and `FP_ONE`).
#[derive(Clone, Copy, PartialEq, Eq, Structural, Debug)]
pub struct TrigSample {
    pub cos_fp: i64,
    pub sin_fp: i64,
}

/// A trigonometric sample that a genuine cosine/sine pair can produce:
/// both components lie within one fixed-point unit of zero.
pub open spec fn trig_bounded(t: TrigSample) -> bool {
    &&& -FP_ONE <= t.cos_fp <= FP_ONE
    &&& -FP_ONE <= t.sin_fp <= FP_ONE
}

/// A circle whose center and radius are small enough that marker positions
/// fit comfortably in fixed-point `i64` arithmetic.
pub open spec fn circle_bounded(c: Circle) -> bool {
    &&& c.x <= MAX_CENTER
    &&& c.y <= MAX_CENTER
    &&& c.d <= CELL
}

/// The marker's x coordinate on a circle, in fixed-point units: the center
/// plus the orbit radius times the cosine of the marker angle.
pub open spec fn marker_x(c: Circle, cos_fp: i64) -> int {
    (c.x as int) * (FP_ONE as int) + (c.d as int) * (cos_fp as int)
}

/// The marker's y coordinate on a circle, in fixed-point units: the center
/// plus the orbit radius times the sine of the marker angle.
pub open spec fn marker_y(c: Circle, sin_fp: i64) -> int {
    (c.y as int) * (FP_ONE as int) + (c.d as int) * (sin_fp as int)
}

impl Circle {
    /// Builds a circle from its position, marker orbit radius and color.
    pub fn new(x: u64, y: u64, d: u64, color: Rgba) -> (c: Circle)
        ensures
            c == (Circle { x, y, d, color }),
    {
        Circle { x, y, d, color }
    }

    /// The marker position for this circle under the given trigonometric
    /// sample, in fixed-point coordinates. For a marker angle `a` the host
    /// samples `cos(a)` and `sin(a)`, so this returns exactly
    /// `(x + d*cos(a), y + d*sin(a))` scaled by [`FP_ONE`].
    pub fn marker(&self, t: TrigSample) -> (m: (i64, i64))
        requires
            circle_bounded(*self),
            trig_bounded(t),
        ensures
            m.0 as int == marker_x(*self, t.cos_fp),
            m.1 as int == marker_y(*self, t.sin_fp),
    {
        proof {
            let d = self.d as int;
            let c = t.cos_fp as int;
            let s = t.sin_fp as int;
            assert(-(80 * 65536) <= d * c <= 80 * 65536 && -(80 * 65536) <= d * s <= 80 * 65536)
                by (nonlinear_arith)
                requires 0 <= d <= 80, -65536 <= c <= 65536, -65536 <= s <= 65536;
        }
        let mx = (self.x as i64) * FP_ONE + (self.d as i64) * t.cos_fp;
        let my = (self.y as i64) * FP_ONE + (self.d as i64) * t.sin_fp;
        (mx, my)
    }
}

/// The number of rows (equally, columns) of the square grid built for a
/// viewport: one less than the number of whole cells that fit along the
/// shorter viewport side, and zero when the viewport is too small for even
/// one cell.
pub open spec fn grid_size(view_w: u32, view_h: u32) -> int {
    let c = (view_w as int) / (CELL as int);
    let r = (view_h as int) / (CELL as int);
    let m = if c <= r { c } else { r };
    if m >= 1 { m - 1 } else { 0 }
}

/// The grid of any `u32` viewport stays far below this many rows.
pub proof fn lemma_grid_size_bound(view_w: u32, view_h: u32)
    ensures
        0 <= grid_size(view_w, view_h) < 0x400_0000,
{
    lemma_div_is_ordered(view_w as int, u32::MAX as int, CELL as int);
    lemma_div_is_ordered(view_h as int, u32::MAX as int, CELL as int);
    assert((u32::MAX as int) / (CELL as int) == 53687091);
}

/// The gradient channel of circle `i` of `n`: the index mapped linearly
/// onto the byte range.
pub open spec fn gradient(i: int, n: int) -> u8
    recommends
        0 <= i < n,
{
    ((i * 255) / n) as u8
}

/// Column circle `i` of a grid of `n`: centered in cell `i+1` of the top
/// row with a half-cell margin, marker orbiting just inside the cell, hue
/// sliding from green toward yellow with the column index.
pub open spec fn col_circle(i: int, n: int) -> Circle
    recommends
        0 <= i < n,
{
    Circle {
        x: ((CELL as int) * i + (CELL as int) + (CELL as int) / 2) as u64,
        y: ((CELL as int) / 2) as u64,
        d: ((CELL as int) / 2 - 10) as u64,
        color: Rgba { r: gradient(i, n), g: 255, b: 0, a: 255 },
    }
}

/// Row circle `j` of a grid of `n`: centered in cell `j+1` of the left
/// column, marker orbiting just inside the cell, hue sliding from red
/// toward magenta with the row index.
pub open spec fn row_circle(j: int, n: int) -> Circle
    recommends
        0 <= j < n,
{
    Circle {
        x: ((CELL as int) / 2) as u64,
        y: ((CELL as int) * j + (CELL as int) + (CELL as int) / 2) as u64,
        d: ((CELL as int) / 2 - 10) as u64,
        color: Rgba { r: 255, g: 0, b: gradient(j, n), a: 255 },
    }
}

/// Every circle of a grid with fewer than `0x400_0000` rows is bounded.
pub proof fn lemma_layout_bounded(i: int, n: int)
    requires
        0 <= i < n,
        n < 0x400_0000,
    ensures
        circle_bounded(col_circle(i, n)),
        circle_bounded(row_circle(i, n)),
{
    assert(80 * i + 120 < 0x2_0000_0000) by (nonlinear_arith)
        requires 0 <= i < 0x400_0000;
}

/// The scene: the driver circles along both axes, one curve per
/// row/column pair, the viewport the layout was built for, and the global
/// angle in steps.
pub struct Scene {
    /// Viewport width at construction, in screen units.
    pub view_w: u32,
    /// Viewport height at construction, in screen units.
    pub view_h: u32,
    /// Row circles, top to bottom along the left edge.
    pub rows: Vec<Circle>,
    /// Column circles, left to right along the top edge.
    pub cols: Vec<Circle>,
    /// The traced curves, indexed `[row][column]`.
    pub curves: Vec<Vec<Curve>>,
    /// The global angle, as the number of steps taken since the last reset;
    /// the real angle is `-angle_steps * pi/400`.
    pub angle_steps: u32,
}

impl Scene {
    /// Well-formedness: the circles stand exactly where the layout for this
    /// viewport puts them, the curve grid is square with matching
    /// dimensions, and the angle has not yet completed a revolution.
    pub open spec fn wf(self) -> bool {
        let n = grid_size(self.view_w, self.view_h);
        &&& self.cols@.len() == n
        &&& self.rows@.len() == n
        &&& self.curves@.len() == n
        &&& forall|j: int| 0 <= j < n ==> (#[trigger] self.curves@[j])@.len() == n
        &&& forall|i: int| 0 <= i < n ==> #[trigger] self.cols@[i] == col_circle(i, n)
        &&& forall|j: int| 0 <= j < n ==> #[trigger] self.rows@[j] == row_circle(j, n)
        &&& self.angle_steps < STEPS_PER_TURN
    }
}

/// The gradient channel of circle `i` of `n` as an executable value.
fn gradient_channel(i: u64, n: u64) -> (v: u8)
    requires
        i < n,
        n < 0x400_0000,
    ensures
        v == gradient(i as int, n as int),
{
    proof {
        lemma_multiply_divide_lt((i as int) * 255, n as int, 255);
    }
    (i * 255 / n) as u8
}

impl Scene {
    /// Builds the scene for a viewport: a square grid of
    /// `grid_size(view_w, view_h)` rows and columns of fresh curves, the
    /// driver circles laid out along the top and left edges, and the angle
    /// at zero. A viewport shorter than two cells on either side yields an
    /// empty grid.
    pub fn new(view_w: u32, view_h: u32) -> (s: Scene)
        ensures
            s.wf(),
            s.view_w == view_w,
            s.view_h == view_h,
            s.angle_steps == 0,
            forall|j: int, i: int|
                #![trigger s.curves@[j]@[i]]
                0 <= j < grid_size(view_w, view_h) && 0 <= i < grid_size(view_w, view_h)
                    ==> fresh(s.curves@[j]@[i]),
    {
        proof {
            lemma_grid_size_bound(view_w, view_h);
        }
        let cols_full: u64 = (view_w as u64) / CELL;
        let rows_full: u64 = (view_h as u64) / CELL;
        let smaller: u64 = if cols_full <= rows_full { cols_full } else { rows_full };
        let n: u64 = if smaller >= 1 { smaller - 1 } else { 0 };
        proof {
            assert(n == grid_size(view_w, view_h));
        }

        let mut col_circles: Vec<Circle> = Vec::new();
        let mut i: u64 = 0;
        while i < n
            invariant
                n == grid_size(view_w, view_h),
                n < 0x400_0000,
                i <= n,
                col_circles@.len() == i,
                forall|k: int| 0 <= k < i ==> #[trigger] col_circles@[k] == col_circle(k, n as int),
            decreases n - i,
        {
            let cx: u64 = CELL * i + CELL + CELL / 2;
            let cy: u64 = CELL / 2;
            let d: u64 = CELL / 2 - 10;
            let channel = gradient_channel(i, n);
            col_circles.push(Circle::new(cx, cy, d, Rgba::new(channel, 255, 0, 255)));
            i = i + 1;
        }

        let mut row_circles: Vec<Circle> = Vec::new();
        let mut j: u64 = 0;
        while j < n
            invariant
                n == grid_size(view_w, view_h),
                n < 0x400_0000,
                j <= n,
                row_circles@.len() == j,
                forall|k: int| 0 <= k < j ==> #[trigger] row_circles@[k] == row_circle(k, n as int),
            decreases n - j,
        {
            let cy: u64 = CELL * j + CELL + CELL / 2;
            let cx: u64 = CELL / 2;
            let d: u64 = CELL / 2 - 10;
            let channel = gradient_channel(j, n);
            row_circles.push(Circle::new(cx, cy, d, Rgba::new(255, 0, channel, 255)));
            j = j + 1;
        }

        let mut curves: Vec<Vec<Curve>> = Vec::new();
        let mut j: u64 = 0;
        while j < n
            invariant
                n < 0x400_0000,
                j <= n,
                curves@.len() == j,
                forall|jj: int| 0 <= jj < j ==> (#[trigger] curves@[jj])@.len() == n,
                forall|jj: int, ii: int|
                    #![trigger curves@[jj]@[ii]]
                    0 <= jj < j && 0 <= ii < n ==> fresh(curves@[jj]@[ii]),
            decreases n - j,
        {
            let mut row: Vec<Curve> = Vec::new();
            let mut i: u64 = 0;
            while i < n
                invariant
                    i <= n,
                    row@.len() == i,
                    forall|ii: int| 0 <= ii < i ==> fresh(#[trigger] row@[ii]),
                decreases n - i,
            {
                row.push(Curve::new());
                i = i + 1;
            }
            curves.push(row);
            j = j + 1;
        }

        Scene {
            view_w,
            view_h,
            rows: row_circles,
            cols: col_circles,
            curves,
            angle_steps: 0,
        }
    }

    /// The number of rows (equally, columns) of the grid.
    pub fn size(&self) -> (n: usize)
        requires
            self.wf(),
        ensures
            n == grid_size(self.view_w, self.view_h),
    {
        self.cols.len()
    }

    /// True when the viewport no longer matches the one the scene was
    /// built for, so the driver must rebuild the scene.
    pub fn needs_rebuild(&self, view_w: u32, view_h: u32) -> (r: bool)
        ensures
            r == (view_w != self.view_w || view_h != self.view_h),
    {
        view_w != self.view_w || view_h != self.view_h
    }
}

/// The color of the full-screen guide lines through the markers: white at
/// a fifth of full opacity.
pub open spec fn guide_color() -> Rgba {
    Rgba { r: 255, g: 255, b: 255, a: 51 }
}

/// The outline drawn for a driver circle, in fixed-point coordinates.
pub open spec fn outline_op(c: Circle) -> DrawOp {
    DrawOp::Outline {
        x: ((c.x as int) * (FP_ONE as int)) as i64,
        y: ((c.y as int) * (FP_ONE as int)) as i64,
        radius: ((c.d as int) * (FP_ONE as int)) as i64,
        color: c.color,
    }
}

/// The filled dot drawn on a circle's marker, three screen units across.
pub open spec fn marker_dot_op(c: Circle, t: TrigSample) -> DrawOp {
    DrawOp::Dot {
        x: marker_x(c, t.cos_fp) as i64,
        y: marker_y(c, t.sin_fp) as i64,
        radius: (3 * FP_ONE) as i64,
        color: white(),
    }
}

/// The vertical guide line through a column marker, spanning the whole
/// viewport height.
pub open spec fn col_guide_op(c: Circle, t: TrigSample, view_h: u32) -> DrawOp {
    DrawOp::Segment {
        x1: marker_x(c, t.cos_fp) as i64,
        y1: 0,
        x2: marker_x(c, t.cos_fp) as i64,
        y2: ((view_h as int) * (FP_ONE as int)) as i64,
        color: guide_color(),
    }
}

/// The horizontal guide line through a row marker, spanning the whole
/// viewport width.
pub open spec fn row_guide_op(c: Circle, t: TrigSample, view_w: u32) -> DrawOp {
    DrawOp::Segment {
        x1: 0,
        y1: marker_y(c, t.sin_fp) as i64,
        x2: ((view_w as int) * (FP_ONE as int)) as i64,
        y2: marker_y(c, t.sin_fp) as i64,
        color: guide_color(),
    }
}

/// Operation `m` of the column pass: the passes emit three operations per
/// circle — outline, marker dot, guide line — so operation `m` belongs to
/// column circle `m/3`.
pub open spec fn col_axis_op(s: Scene, col_trig: Seq<TrigSample>, m: int) -> DrawOp
    recommends
        0 <= m < 3 * s.cols@.len(),
{
    let c = s.cols@[m / 3];
    let t = col_trig[m / 3];
    if m % 3 == 0 {
        outline_op(c)
    } else if m % 3 == 1 {
        marker_dot_op(c, t)
    } else {
        col_guide_op(c, t, s.view_h)
    }
}

/// Operation `m` of the row pass, laid out as in [`col_axis_op`].
pub open spec fn row_axis_op(s: Scene, row_trig: Seq<TrigSample>, m: int) -> DrawOp
    recommends
        0 <= m < 3 * s.rows@.len(),
{
    let c = s.rows@[m / 3];
    let t = row_trig[m / 3];
    if m % 3 == 0 {
        outline_op(c)
    } else if m % 3 == 1 {
        marker_dot_op(c, t)
    } else {
        row_guide_op(c, t, s.view_w)
    }
}

/// The marker x coordinate of column circle `i` under the sampled angles,
/// as the fixed-point value every curve of column `i` receives.
pub open spec fn col_mx(s: Scene, col_trig: Seq<TrigSample>, i: int) -> i64 {
    marker_x(s.cols@[i], col_trig[i].cos_fp) as i64
}

/// The marker y coordinate of row circle `j` under the sampled angles, as
/// the fixed-point value every curve of row `j` receives.
pub open spec fn row_my(s: Scene, row_trig: Seq<TrigSample>, j: int) -> i64 {
    marker_y(s.rows@[j], row_trig[j].sin_fp) as i64
}

/// A curve with both coordinates of its next point staged from the frame's
/// marker positions and both pending colors taken from its axis circles,
/// its committed path untouched.
pub open spec fn xy_staged(
    c_new: Curve,
    c_old: Curve,
    s: Scene,
    col_trig: Seq<TrigSample>,
    row_trig: Seq<TrigSample>,
    j: int,
    i: int,
) -> bool {
    &&& c_new.cur_x == col_mx(s, col_trig, i)
    &&& c_new.color_x == s.rows@[j].color
    &&& c_new.cur_y == row_my(s, row_trig, j)
    &&& c_new.color_y == s.cols@[i].color
    &&& c_new.path@ == c_old.path@
}

/// The point curve `[j][i]` gains in a frame: the column marker's x, the
/// row marker's y, and the blend of the row and column hues.
pub open spec fn frame_point(
    s: Scene,
    col_trig: Seq<TrigSample>,
    row_trig: Seq<TrigSample>,
    j: int,
    i: int,
) -> ColoredPoint {
    ColoredPoint {
        x: col_mx(s, col_trig, i),
        y: row_my(s, row_trig, j),
        color: lerp_spec(s.rows@[j].color, s.cols@[i].color),
    }
}

/// The full effect of one frame on curve `[j][i]` of scene `s`: the frame's
/// point is committed at the end of the path and stays staged.
pub open spec fn frame_traced(
    c_new: Curve,
    c_old: Curve,
    s: Scene,
    col_trig: Seq<TrigSample>,
    row_trig: Seq<TrigSample>,
    j: int,
    i: int,
) -> bool {
    &&& c_new.path@ == c_old.path@.push(frame_point(s, col_trig, row_trig, j, i))
    &&& c_new.cur_x == col_mx(s, col_trig, i)
    &&& c_new.color_x == s.rows@[j].color
    &&& c_new.cur_y == row_my(s, row_trig, j)
    &&& c_new.color_y == s.cols@[i].color
}

impl Scene {
    /// Stages the x coordinate `mx` into every curve of column `i`,
    /// together with the color of each curve's row circle; nothing else
    /// changes.
    fn stage_column(&mut self, i: usize, mx: i64)
        requires
            old(self).wf(),
            i < grid_size(old(self).view_w, old(self).view_h),
        ensures
            final(self).wf(),
            final(self).view_w == old(self).view_w,
            final(self).view_h == old(self).view_h,
            final(self).rows@ == old(self).rows@,
            final(self).cols@ == old(self).cols@,
            final(self).angle_steps == old(self).angle_steps,
            forall|jj: int, k: int|
                #![trigger final(self).curves@[jj]@[k]]
                0 <= jj < grid_size(old(self).view_w, old(self).view_h)
                    && 0 <= k < grid_size(old(self).view_w, old(self).view_h) ==> if k == i {
                    x_staged(
                        final(self).curves@[jj]@[k],
                        old(self).curves@[jj]@[k],
                        mx,
                        old(self).rows@[jj].color,
                    )
                } else {
                    final(self).curves@[jj]@[k] == old(self).curves@[jj]@[k]
                },
    {
        let ghost n: int = grid_size(old(self).view_w, old(self).view_h);
        let size = self.rows.len();
        let mut j: usize = 0;
        while j < size
            invariant
                n == grid_size(old(self).view_w, old(self).view_h),
                size == n,
                i < n,
                j <= size,
                self.view_w == old(self).view_w,
                self.view_h == old(self).view_h,
                self.rows@ == old(self).rows@,
                self.cols@ == old(self).cols@,
                self.angle_steps == old(self).angle_steps,
                old(self).wf(),
                self.curves@.len() == n,
                forall|jj: int| 0 <= jj < n ==> (#[trigger] self.curves@[jj])@.len() == n,
                forall|jj: int, k: int|
                    #![trigger self.curves@[jj]@[k]]
                    0 <= jj < n && 0 <= k < n ==> if jj < j && k == i {
                        x_staged(
                            self.curves@[jj]@[k],
                            old(self).curves@[jj]@[k],
                            mx,
                            old(self).rows@[jj].color,
                        )
                    } else {
                        self.curves@[jj]@[k] == old(self).curves@[jj]@[k]
                    },
            decreases size - j,
        {
            let row_color = self.rows[j].color;
            self.curves[j][i].set_x(mx, row_color);
            j = j + 1;
        }
    }

    /// Stages the y coordinate `my` into every curve of row `j`, together
    /// with the color of each curve's column circle; nothing else changes.
    fn stage_row(&mut self, j: usize, my: i64)
        requires
            old(self).wf(),
            j < grid_size(old(self).view_w, old(self).view_h),
        ensures
            final(self).wf(),
            final(self).view_w == old(self).view_w,
            final(self).view_h == old(self).view_h,
            final(self).rows@ == old(self).rows@,
            final(self).cols@ == old(self).cols@,
            final(self).angle_steps == old(self).angle_steps,
            forall|jj: int, k: int|
                #![trigger final(self).curves@[jj]@[k]]
                0 <= jj < grid_size(old(self).view_w, old(self).view_h)
                    && 0 <= k < grid_size(old(self).view_w, old(self).view_h) ==> if jj == j {
                    y_staged(
                        final(self).curves@[jj]@[k],
                        old(self).curves@[jj]@[k],
                        my,
                        old(self).cols@[k].color,
                    )
                } else {
                    final(self).curves@[jj]@[k] == old(self).curves@[jj]@[k]
                },
    {
        let ghost n: int = grid_size(old(self).view_w, old(self).view_h);
        let size = self.cols.len();
        let mut i: usize = 0;
        while i < size
            invariant
                n == grid_size(old(self).view_w, old(self).view_h),
                size == n,
                j < n,
                i <= size,
                self.view_w == old(self).view_w,
                self.view_h == old(self).view_h,
                self.rows@ == old(self).rows@,
                self.cols@ == old(self).cols@,
                self.angle_steps == old(self).angle_steps,
                old(self).wf(),
                self.curves@.len() == n,
                forall|jj: int| 0 <= jj < n ==> (#[trigger] self.curves@[jj])@.len() == n,
                forall|jj: int, k: int|
                    #![trigger self.curves@[jj]@[k]]
                    0 <= jj < n && 0 <= k < n ==> if jj == j && k < i {
                        y_staged(
                            self.curves@[jj]@[k],
                            old(self).curves@[jj]@[k],
                            my,
                            old(self).cols@[k].color,
                        )
                    } else {
                        self.curves@[jj]@[k] == old(self).curves@[jj]@[k]
                    },
            decreases size - i,
        {
            let col_color = self.cols[i].color;
            self.curves[j][i].set_y(my, col_color);
            i = i + 1;
        }
    }

    /// Commits the staged point of every curve in the grid; nothing else
    /// changes.
    fn commit_all(&mut self)
        requires
            old(self).wf(),
        ensures
            final(self).wf(),
            final(self).view_w == old(self).view_w,
            final(self).view_h == old(self).view_h,
            final(self).rows@ == old(self).rows@,
            final(self).cols@ == old(self).cols@,
            final(self).angle_steps == old(self).angle_steps,
            forall|jj: int, k: int|
                #![trigger final(self).curves@[jj]@[k]]
                0 <= jj < grid_size(old(self).view_w, old(self).view_h)
                    && 0 <= k < grid_size(old(self).view_w, old(self).view_h)
                    ==> point_added(final(self).curves@[jj]@[k], old(self).curves@[jj]@[k]),
    {
        let ghost n: int = grid_size(old(self).view_w, old(self).view_h);
        let size = self.rows.len();
        let mut j: usize = 0;
        while j < size
            invariant
                n == grid_size(old(self).view_w, old(self).view_h),
                size == n,
                j <= size,
                self.view_w == old(self).view_w,
                self.view_h == old(self).view_h,
                self.rows@ == old(self).rows@,
                self.cols@ == old(self).cols@,
                self.angle_steps == old(self).angle_steps,
                old(self).wf(),
                self.curves@.len() == n,
                forall|jj: int| 0 <= jj < n ==> (#[trigger] self.curves@[jj])@.len() == n,
                forall|jj: int, k: int|
                    #![trigger self.curves@[jj]@[k]]
                    0 <= jj < n && 0 <= k < n ==> if jj < j {
                        point_added(self.curves@[jj]@[k], old(self).curves@[jj]@[k])
                    } else {
                        self.curves@[jj]@[k] == old(self).curves@[jj]@[k]
                    },
            decreases size - j,
        {
            let mut i: usize = 0;
            while i < size
                invariant
                    n == grid_size(old(self).view_w, old(self).view_h),
                    size == n,
                    j < size,
                    i <= size,
                    self.view_w == old(self).view_w,
                    self.view_h == old(self).view_h,
                    self.rows@ == old(self).rows@,
                    self.cols@ == old(self).cols@,
                    self.angle_steps == old(self).angle_steps,
                    old(self).wf(),
                    self.curves@.len() == n,
                    forall|jj: int| 0 <= jj < n ==> (#[trigger] self.curves@[jj])@.len() == n,
                    forall|jj: int, k: int|
                        #![trigger self.curves@[jj]@[k]]
                        0 <= jj < n && 0 <= k < n ==> if jj < j || (jj == j && k < i) {
                            point_added(self.curves@[jj]@[k], old(self).curves@[jj]@[k])
                        } else {
                            self.curves@[jj]@[k] == old(self).curves@[jj]@[k]
                        },
                decreases size - i,
            {
                self.curves[j][i].add();
                i = i + 1;
            }
            j = j + 1;
        }
    }

    /// Clears the path of every curve in the grid; nothing else changes.
    fn reset_all(&mut self)
        requires
            old(self).wf(),
        ensures
            final(self).wf(),
            final(self).view_w == old(self).view_w,
            final(self).view_h == old(self).view_h,
            final(self).rows@ == old(self).rows@,
            final(self).cols@ == old(self).cols@,
            final(self).angle_steps == old(self).angle_steps,
            forall|jj: int, k: int|
                #![trigger final(self).curves@[jj]@[k]]
                0 <= jj < grid_size(old(self).view_w, old(self).view_h)
                    && 0 <= k < grid_size(old(self).view_w, old(self).view_h)
                    ==> cleared(final(self).curves@[jj]@[k], old(self).curves@[jj]@[k]),
    {
        let ghost n: int = grid_size(old(self).view_w, old(self).view_h);
        let size = self.rows.len();
        let mut j: usize = 0;
        while j < size
            invariant
                n == grid_size(old(self).view_w, old(self).view_h),
                size == n,
                j <= size,
                self.view_w == old(self).view_w,
                self.view_h == old(self).view_h,
                self.rows@ == old(self).rows@,
                self.cols@ == old(self).cols@,
                self.angle_steps == old(self).angle_steps,
                old(self).wf(),
                self.curves@.len() == n,
                forall|jj: int| 0 <= jj < n ==> (#[trigger] self.curves@[jj])@.len() == n,
                forall|jj: int, k: int|
                    #![trigger self.curves@[jj]@[k]]
                    0 <= jj < n && 0 <= k < n ==> if jj < j {
                        cleared(self.curves@[jj]@[k], old(self).curves@[jj]@[k])
                    } else {
                        self.curves@[jj]@[k] == old(self).curves@[jj]@[k]
                    },
            decreases size - j,
        {
            let mut i: usize = 0;
            while i < size
                invariant
                    n == grid_size(old(self).view_w, old(self).view_h),
                    size == n,
                    j < size,
                    i <= size,
                    self.view_w == old(self).view_w,
                    self.view_h == old(self).view_h,
                    self.rows@ == old(self).rows@,
                    self.cols@ == old(self).cols@,
                    self.angle_steps == old(self).angle_steps,
                    old(self).wf(),
                    self.curves@.len() == n,
                    forall|jj: int| 0 <= jj < n ==> (#[trigger] self.curves@[jj])@.len() == n,
                    forall|jj: int, k: int|
                        #![trigger self.curves@[jj]@[k]]
                        0 <= jj < n && 0 <= k < n ==> if jj < j || (jj == j && k < i) {
                            cleared(self.curves@[jj]@[k], old(self).curves@[jj]@[k])
                        } else {
                            self.curves@[jj]@[k] == old(self).curves@[jj]@[k]
                        },
                decreases size - i,
            {
                self.curves[j][i].reset();
                i = i + 1;
            }
            j = j + 1;
        }
    }

    /// Renders one frame. The caller samples, for each column circle `i`,
    /// the cosine and sine of that circle's marker angle (see
    /// [`Scene::marker_phase`]) into `col_trig[i]`, and likewise for each
    /// row circle into `row_trig`; this method then walks the column pass,
    /// the row pass, and the commit pass in order. Each pass stages the
    /// marker coordinate into its column (or row) of curves, and the commit
    /// pass appends exactly one point to every curve. The returned
    /// operations draw the circles, their markers, and the full-screen
    /// guide lines, columns first; the curves themselves are drawn from
    /// [`Curve::show`] afterwards.
    pub fn show(&mut self, col_trig: &Vec<TrigSample>, row_trig: &Vec<TrigSample>) -> (ops: Vec<
        DrawOp,
    >)
        requires
            old(self).wf(),
            col_trig@.len() == grid_size(old(self).view_w, old(self).view_h),
            row_trig@.len() == grid_size(old(self).view_w, old(self).view_h),
            forall|i: int| 0 <= i < col_trig@.len() ==> trig_bounded(#[trigger] col_trig@[i]),
            forall|j: int| 0 <= j < row_trig@.len() ==> trig_bounded(#[trigger] row_trig@[j]),
        ensures
            final(self).wf(),
            final(self).view_w == old(self).view_w,
            final(self).view_h == old(self).view_h,
            final(self).rows@ == old(self).rows@,
            final(self).cols@ == old(self).cols@,
            final(self).angle_steps == old(self).angle_steps,
            forall|j: int, i: int|
                #![trigger final(self).curves@[j]@[i]]
                0 <= j < grid_size(old(self).view_w, old(self).view_h)
                    && 0 <= i < grid_size(old(self).view_w, old(self).view_h)
                    ==> frame_traced(
                    final(self).curves@[j]@[i],
                    old(self).curves@[j]@[i],
                    *old(self),
                    col_trig@,
                    row_trig@,
                    j,
                    i,
                ),
            ops@.len() == 6 * grid_size(old(self).view_w, old(self).view_h),
            forall|m: int|
                #![trigger ops@[m]]
                0 <= m < 3 * grid_size(old(self).view_w, old(self).view_h)
                    ==> ops@[m] == col_axis_op(*old(self), col_trig@, m),
            forall|m: int|
                #![trigger ops@[m]]
                3 * grid_size(old(self).view_w, old(self).view_h) <= m < 6 * grid_size(
                    old(self).view_w,
                    old(self).view_h,
                ) ==> ops@[m] == row_axis_op(
                    *old(self),
                    row_trig@,
                    m - 3 * grid_size(old(self).view_w, old(self).view_h),
                ),
    {
        let ghost n: int = grid_size(old(self).view_w, old(self).view_h);
        proof {
            lemma_grid_size_bound(old(self).view_w, old(self).view_h);
        }
        let size = self.cols.len();
        let mut ops: Vec<DrawOp> = Vec::new();

        let mut i: usize = 0;
        while i < size
            invariant
                n == grid_size(old(self).view_w, old(self).view_h),
                0 <= n < 0x400_0000,
                size == n,
                i <= size,
                col_trig@.len() == n,
                forall|k: int| 0 <= k < col_trig@.len() ==> trig_bounded(#[trigger] col_trig@[k]),
                self.wf(),
                self.view_w == old(self).view_w,
                self.view_h == old(self).view_h,
                self.rows@ == old(self).rows@,
                self.cols@ == old(self).cols@,
                self.angle_steps == old(self).angle_steps,
                ops@.len() == 3 * i,
                forall|m: int|
                    #![trigger ops@[m]]
                    0 <= m < 3 * i ==> ops@[m] == col_axis_op(*old(self), col_trig@, m),
                forall|jj: int, k: int|
                    #![trigger self.curves@[jj]@[k]]
                    0 <= jj < n && 0 <= k < n ==> if k < i {
                        x_staged(
                            self.curves@[jj]@[k],
                            old(self).curves@[jj]@[k],
                            col_mx(*old(self), col_trig@, k),
                            old(self).rows@[jj].color,
                        )
                    } else {
                        self.curves@[jj]@[k] == old(self).curves@[jj]@[k]
                    },
            decreases size - i,
        {
            proof {
                lemma_layout_bounded(i as int, n);
            }
            let circle = self.cols[i];
            let t = col_trig[i];
            let (mx, my) = circle.marker(t);
            ops.push(
                DrawOp::Outline {
                    x: (circle.x as i64) * FP_ONE,
                    y: (circle.y as i64) * FP_ONE,
                    radius: (circle.d as i64) * FP_ONE,
                    color: circle.color,
                },
            );
            ops.push(DrawOp::Dot { x: mx, y: my, radius: 3 * FP_ONE, color: Rgba::white() });
            ops.push(
                DrawOp::Segment {
                    x1: mx,
                    y1: 0,
                    x2: mx,
                    y2: (self.view_h as i64) * FP_ONE,
                    color: Rgba::new(255, 255, 255, 51),
                },
            );
            proof {
                let ii = i as int;
                assert((3 * ii) / 3 == ii && (3 * ii) % 3 == 0);
                assert((3 * ii + 1) / 3 == ii && (3 * ii + 1) % 3 == 1);
                assert((3 * ii + 2) / 3 == ii && (3 * ii + 2) % 3 == 2);
            }
            self.stage_column(i, mx);
            i = i + 1;
        }

        let ghost s1: Scene = *self;
        let mut j: usize = 0;
        while j < size
            invariant
                n == grid_size(old(self).view_w, old(self).view_h),
                0 <= n < 0x400_0000,
                size == n,
                j <= size,
                col_trig@.len() == n,
                row_trig@.len() == n,
                forall|k: int| 0 <= k < row_trig@.len() ==> trig_bounded(#[trigger] row_trig@[k]),
                self.wf(),
                self.view_w == old(self).view_w,
                self.view_h == old(self).view_h,
                self.rows@ == old(self).rows@,
                self.cols@ == old(self).cols@,
                self.angle_steps == old(self).angle_steps,
                ops@.len() == 3 * n + 3 * j,
                forall|m: int|
                    #![trigger ops@[m]]
                    0 <= m < 3 * n ==> ops@[m] == col_axis_op(*old(self), col_trig@, m),
                forall|m: int|
                    #![trigger ops@[m]]
                    3 * n <= m < 3 * n + 3 * j ==> ops@[m] == row_axis_op(
                        *old(self),
                        row_trig@,
                        m - 3 * n,
                    ),
                forall|jj: int, k: int|
                    #![trigger self.curves@[jj]@[k]]
                    0 <= jj < n && 0 <= k < n ==> if jj < j {
                        xy_staged(
                            self.curves@[jj]@[k],
                            old(self).curves@[jj]@[k],
                            *old(self),
                            col_trig@,
                            row_trig@,
                            jj,
                            k,
                        )
                    } else {
                        x_staged(
                            self.curves@[jj]@[k],
                            old(self).curves@[jj]@[k],
                            col_mx(*old(self), col_trig@, k),
                            old(self).rows@[jj].color,
                        )
                    },
            decreases size - j,
        {
            proof {
                lemma_layout_bounded(j as int, n);
            }
            let circle = self.rows[j];
            let t = row_trig[j];
            let (mx, my) = circle.marker(t);
            ops.push(
                DrawOp::Outline {
                    x: (circle.x as i64) * FP_ONE,
                    y: (circle.y as i64) * FP_ONE,
                    radius: (circle.d as i64) * FP_ONE,
                    color: circle.color,
                },
            );
            ops.push(DrawOp::Dot { x: mx, y: my, radius: 3 * FP_ONE, color: Rgba::white() });
            ops.push(
                DrawOp::Segment {
                    x1: 0,
                    y1: my,
                    x2: (self.view_w as i64) * FP_ONE,
                    y2: my,
                    color: Rgba::new(255, 255, 255, 51),
                },
            );
            proof {
                let jjj = j as int;
                assert((3 * jjj) / 3 == jjj && (3 * jjj) % 3 == 0);
                assert((3 * jjj + 1) / 3 == jjj && (3 * jjj + 1) % 3 == 1);
                assert((3 * jjj + 2) / 3 == jjj && (3 * jjj + 2) % 3 == 2);
            }
            self.stage_row(j, my);
            j = j + 1;
        }

        let ghost s2: Scene = *self;
        self.commit_all();
        proof {
            assert forall|jj: int, k: int|
                0 <= jj < n && 0 <= k < n implies frame_traced(
                #[trigger] self.curves@[jj]@[k],
                old(self).curves@[jj]@[k],
                *old(self),
                col_trig@,
                row_trig@,
                jj,
                k,
            ) by {
                assert(point_added(self.curves@[jj]@[k], s2.curves@[jj]@[k]));
                assert(xy_staged(
                    s2.curves@[jj]@[k],
                    old(self).curves@[jj]@[k],
                    *old(self),
                    col_trig@,
                    row_trig@,
                    jj,
                    k,
                ));
                assert(crate::curve::pending_point(s2.curves@[jj]@[k]) == frame_point(
                    *old(self),
                    col_trig@,
                    row_trig@,
                    jj,
                    k,
                ));
                assert(self.curves@[jj]@[k].path@ == old(self).curves@[jj]@[k].path@.push(
                    frame_point(*old(self), col_trig@, row_trig@, jj, k),
                ));
            }
        }
        ops
    }

    /// Advances the global angle by one step (pi/400 of turn). When that
    /// completes a full revolution — after [`STEPS_PER_TURN`] steps — every
    /// curve's path is cleared and the angle snaps back to zero; otherwise
    /// the curves are untouched.
    pub fn update(&mut self)
        requires
            old(self).wf(),
        ensures
            final(self).wf(),
            final(self).view_w == old(self).view_w,
            final(self).view_h == old(self).view_h,
            final(self).rows@ == old(self).rows@,
            final(self).cols@ == old(self).cols@,
            final(self).angle_steps == next_steps(old(self).angle_steps as int),
            old(self).angle_steps + 1 < STEPS_PER_TURN ==> final(self).curves == old(self).curves,
            old(self).angle_steps + 1 >= STEPS_PER_TURN ==> forall|j: int, i: int|
                #![trigger final(self).curves@[j]@[i]]
                0 <= j < grid_size(old(self).view_w, old(self).view_h) && 0 <= i < grid_size(
                    old(self).view_w,
                    old(self).view_h,
                ) ==> cleared(final(self).curves@[j]@[i], old(self).curves@[j]@[i]),
    {
        let next = self.angle_steps + 1;
        if next >= STEPS_PER_TURN {
            self.reset_all();
            self.angle_steps = 0;
        } else {
            self.angle_steps = next;
        }
    }

    /// The magnitude of the marker angle of driver circle `k`, in steps of
    /// pi/400: circle `k` runs at harmonic `k+1`, so its marker stands at
    /// the global angle times `k+1`. The host turns this into radians,
    /// negates it (the angle runs clockwise), adds the quarter-turn offset
    /// that starts markers at the top, and samples cosine and sine.
    pub fn marker_phase(&self, k: usize) -> (phase: u64)
        requires
            self.wf(),
            k < grid_size(self.view_w, self.view_h),
        ensures
            phase == (self.angle_steps as int) * (k as int + 1),
    {
        proof {
            lemma_grid_size_bound(self.view_w, self.view_h);
            let s = self.angle_steps as int;
            let h = k as int + 1;
            assert(0 <= s * h <= 800 * 0x400_0000) by (nonlinear_arith)
                requires 0 <= s < 800, 0 < h <= 0x400_0000;
        }
        (self.angle_steps as u64) * (k as u64 + 1)
    }
}

/// The global angle's step counter after one update: one more step, or
/// zero when that completes the revolution.
pub open spec fn next_steps(s: int) -> int {
    if s + 1 >= STEPS_PER_TURN {
        0
    } else {
        s + 1
    }
}

/// The step counter after `k` updates of a scene that starts at angle
/// zero.
pub open spec fn steps_after(k: nat) -> int
    decreases k,
{
    if k == 0 {
        0
    } else {
        next_steps(steps_after((k - 1) as nat))
    }
}

/// How many of the first `k` updates of a scene that starts at angle zero
/// clear the curves: an update resets exactly when it completes the
/// revolution.
pub open spec fn resets_after(k: nat) -> int
    decreases k,
{
    if k == 0 {
        0
    } else {
        resets_after((k - 1) as nat) + if steps_after((k - 1) as nat) + 1 >= STEPS_PER_TURN {
            1int
        } else {
            0int
        }
    }
}

/// Law: starting from angle zero, the first revolution's worth of updates
/// resets the curves exactly once, on the very last of those updates — so
/// after exactly [`STEPS_PER_TURN`] updates the angle reads zero again and
/// one reset has happened ([`Scene::update`]'s contract adds that every
/// path is empty at that moment).
pub proof fn lemma_revolution_cycle(k: nat)
    requires
        k <= STEPS_PER_TURN,
    ensures
        steps_after(k) == if k < STEPS_PER_TURN {
            k as int
        } else {
            0int
        },
        resets_after(k) == if k < STEPS_PER_TURN {
            0int
        } else {
            1int
        },
    decreases k,
{
    if k > 0 {
        lemma_revolution_cycle((k - 1) as nat);
    }
}

/// How many milliseconds the frame driver should still wait to stretch a
/// frame that took `elapsed_ms` to the ideal duration `target_ms`: the
/// difference, or nothing once the frame already took at least that long.
pub fn pacing_wait_ms(target_ms: u64, elapsed_ms: u64) -> (wait: u64)
    ensures
        wait == if elapsed_ms < target_ms {
            target_ms - elapsed_ms
        } else {
            0int
        },
{
    if elapsed_ms < target_ms {
        target_ms - elapsed_ms
    } else {
        0
    }
}

} // verus!
