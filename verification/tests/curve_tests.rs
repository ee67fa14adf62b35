use lissajous::color::{lerp, Rgba};
use lissajous::curve::Curve;
use lissajous::draw::{DrawOp, FP_ONE};

#[test]
fn new_curve_is_empty() {
    let c = Curve::new();
    assert_eq!(c.path.len(), 0);
    assert_eq!(c.cur_x, 0);
    assert_eq!(c.cur_y, 0);
    assert_eq!(c.color_x, Rgba::new(255, 255, 255, 255));
    assert_eq!(c.color_y, Rgba::new(255, 255, 255, 255));
}

#[test]
fn add_commits_staged_point_with_blended_color() {
    let red = Rgba::new(255, 0, 0, 255);
    let blue = Rgba::new(0, 0, 255, 255);
    let mut c = Curve::new();
    c.set_x(100 * FP_ONE, red);
    c.set_y(-7 * FP_ONE, blue);
    c.add();
    assert_eq!(c.path.len(), 1);
    assert_eq!(c.path[0].x, 100 * FP_ONE);
    assert_eq!(c.path[0].y, -7 * FP_ONE);
    assert_eq!(c.path[0].color, lerp(&red, &blue));
    assert_eq!(c.path[0].color, Rgba::new(128, 0, 128, 255));
}

#[test]
fn reset_clears_a_nonempty_path_and_keeps_staging() {
    let red = Rgba::new(255, 0, 0, 255);
    let blue = Rgba::new(0, 0, 255, 255);
    let mut c = Curve::new();
    c.set_x(5, red);
    c.set_y(6, blue);
    c.add();
    c.add();
    assert_eq!(c.path.len(), 2);
    c.reset();
    assert_eq!(c.path.len(), 0);
    // Adding one point afterwards commits the still-staged point again.
    c.add();
    assert_eq!(c.path.len(), 1);
    assert_eq!(c.path[0].x, 5);
    assert_eq!(c.path[0].y, 6);
    assert_eq!(c.path[0].color, lerp(&red, &blue));
}

#[test]
fn show_draws_no_segments_below_two_points() {
    let white = Rgba::new(255, 255, 255, 255);
    let mut c = Curve::new();
    // An empty path draws nothing at all.
    assert_eq!(c.show().len(), 0);
    // A lone point draws no segment, but still gets its highlight dot.
    c.set_x(1, white);
    c.set_y(2, white);
    c.add();
    let ops = c.show();
    assert_eq!(ops.len(), 1);
    assert_eq!(ops[0], DrawOp::Dot { x: 1, y: 2, radius: 2 * FP_ONE, color: white });
}

#[test]
fn show_wraps_last_segment_back_to_first_point() {
    let white = Rgba::new(255, 255, 255, 255);
    let mut c = Curve::new();
    let coords = [(0i64, 0i64), (10, 20), (30, 40)];
    let tints = [
        Rgba::new(0, 0, 0, 255),
        Rgba::new(100, 100, 100, 255),
        Rgba::new(200, 200, 200, 255),
    ];
    for k in 0..3 {
        c.set_x(coords[k].0, tints[k]);
        c.set_y(coords[k].1, tints[k]);
        c.add();
    }
    let point_color = |k: usize| lerp(&tints[k], &tints[k]);
    let ops = c.show();
    assert_eq!(ops.len(), 4);
    assert_eq!(
        ops[0],
        DrawOp::Segment { x1: 0, y1: 0, x2: 10, y2: 20, color: point_color(1) }
    );
    assert_eq!(
        ops[1],
        DrawOp::Segment { x1: 10, y1: 20, x2: 30, y2: 40, color: point_color(2) }
    );
    // The closing stroke: from the newest point back to the first, in the
    // first point's color.
    assert_eq!(
        ops[2],
        DrawOp::Segment { x1: 30, y1: 40, x2: 0, y2: 0, color: point_color(0) }
    );
    assert_eq!(
        ops[3],
        DrawOp::Dot { x: 30, y: 40, radius: 2 * FP_ONE, color: white }
    );
}
