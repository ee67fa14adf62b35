use lissajous::color::Rgba;
use lissajous::draw::{DrawOp, FP_ONE};
use lissajous::scene::{pacing_wait_ms, Circle, Scene, TrigSample};

/// The sample every marker gets at angle zero: the host adds the
/// quarter-turn offset, so cos is 0 and sin is 1.
fn top_of_circle() -> TrigSample {
    TrigSample { cos_fp: 0, sin_fp: FP_ONE }
}

fn uniform_trig(n: usize, t: TrigSample) -> Vec<TrigSample> {
    let mut v = Vec::new();
    for _ in 0..n {
        v.push(t);
    }
    v
}

#[test]
fn grid_size_is_min_of_both_axes_minus_one() {
    assert_eq!(Scene::new(700, 700).size(), 7);
    assert_eq!(Scene::new(700, 400).size(), 4);
    assert_eq!(Scene::new(800, 480).size(), 5);
    assert_eq!(Scene::new(160, 240).size(), 1);
}

#[test]
fn tiny_viewports_yield_an_empty_grid() {
    assert_eq!(Scene::new(100, 100).size(), 0);
    assert_eq!(Scene::new(79, 700).size(), 0);
    assert_eq!(Scene::new(0, 0).size(), 0);
    let mut scene = Scene::new(80, 80);
    assert_eq!(scene.size(), 0);
    // A frame on an empty grid draws nothing and touches nothing.
    let ops = scene.show(&Vec::new(), &Vec::new());
    assert_eq!(ops.len(), 0);
}

#[test]
fn layout_positions_and_gradient_colors() {
    let scene = Scene::new(700, 700);
    assert_eq!(scene.cols.len(), 7);
    assert_eq!(scene.rows.len(), 7);
    assert_eq!(scene.curves.len(), 7);
    for row in &scene.curves {
        assert_eq!(row.len(), 7);
    }
    // Column circles run along the top edge, one cell apart.
    assert_eq!(scene.cols[0], Circle::new(120, 40, 30, Rgba::new(0, 255, 0, 255)));
    assert_eq!(scene.cols[6], Circle::new(600, 40, 30, Rgba::new(218, 255, 0, 255)));
    // Row circles run down the left edge with the blue gradient.
    assert_eq!(scene.rows[0], Circle::new(40, 120, 30, Rgba::new(255, 0, 0, 255)));
    assert_eq!(scene.rows[6], Circle::new(40, 600, 30, Rgba::new(255, 0, 218, 255)));
}

#[test]
fn marker_position_follows_the_parametric_formula() {
    let c = Circle::new(120, 40, 30, Rgba::new(255, 255, 255, 255));
    // cos = 1, sin = 0: marker sits at the right edge of the orbit.
    let m = c.marker(TrigSample { cos_fp: FP_ONE, sin_fp: 0 });
    assert_eq!(m, (150 * FP_ONE, 40 * FP_ONE));
    // At the top of the circle.
    let m = c.marker(top_of_circle());
    assert_eq!(m, (120 * FP_ONE, 70 * FP_ONE));
    // An arbitrary sample: exactly center + radius * sample.
    let t = TrigSample { cos_fp: -12345, sin_fp: 54321 };
    let m = c.marker(t);
    assert_eq!(m.0, 120 * FP_ONE + 30 * t.cos_fp);
    assert_eq!(m.1, 40 * FP_ONE + 30 * t.sin_fp);
}

#[test]
fn marker_formula_matches_a_float_sampled_angle() {
    // The host samples cos/sin of the marker angle in floating point and
    // scales; whatever it hands in, the marker is center + radius * sample.
    let c = Circle::new(600, 40, 30, Rgba::new(218, 255, 0, 255));
    let steps: u64 = 100;
    let harmonic: u64 = 3;
    let angle = -((steps * harmonic) as f64) * std::f64::consts::PI / 400.0
        + std::f64::consts::FRAC_PI_2;
    let t = TrigSample {
        cos_fp: (angle.cos() * FP_ONE as f64).round() as i64,
        sin_fp: (angle.sin() * FP_ONE as f64).round() as i64,
    };
    let m = c.marker(t);
    assert_eq!(m.0, 600 * FP_ONE + 30 * t.cos_fp);
    assert_eq!(m.1, 40 * FP_ONE + 30 * t.sin_fp);
}

#[test]
fn marker_phase_multiplies_angle_by_harmonic() {
    let mut scene = Scene::new(700, 700);
    assert_eq!(scene.marker_phase(0), 0);
    scene.update();
    scene.update();
    scene.update();
    assert_eq!(scene.angle_steps, 3);
    // Circle 2 runs at harmonic 3.
    assert_eq!(scene.marker_phase(2), 9);
    assert_eq!(scene.marker_phase(6), 21);
}

#[test]
fn first_frame_at_angle_zero_traces_the_circle_tops() {
    let mut scene = Scene::new(700, 700);
    assert_eq!(scene.size(), 7);
    assert_eq!(scene.cols.len() + scene.rows.len(), 14);

    let col_trig = uniform_trig(7, top_of_circle());
    let row_trig = uniform_trig(7, top_of_circle());
    let ops = scene.show(&col_trig, &row_trig);

    // Three operations per circle, columns first.
    assert_eq!(ops.len(), 42);
    assert_eq!(
        ops[0],
        DrawOp::Outline {
            x: 120 * FP_ONE,
            y: 40 * FP_ONE,
            radius: 30 * FP_ONE,
            color: Rgba::new(0, 255, 0, 255),
        }
    );
    assert_eq!(
        ops[1],
        DrawOp::Dot {
            x: 7864320,
            y: 70 * FP_ONE,
            radius: 3 * FP_ONE,
            color: Rgba::new(255, 255, 255, 255),
        }
    );
    assert_eq!(
        ops[2],
        DrawOp::Segment {
            x1: 7864320,
            y1: 0,
            x2: 7864320,
            y2: 700 * FP_ONE,
            color: Rgba::new(255, 255, 255, 51),
        }
    );
    assert_eq!(
        ops[21],
        DrawOp::Outline {
            x: 40 * FP_ONE,
            y: 120 * FP_ONE,
            radius: 30 * FP_ONE,
            color: Rgba::new(255, 0, 0, 255),
        }
    );

    // Every curve gained exactly one point: its column marker's x (the
    // circle's center, since cos is 0) and its row marker's y (center plus
    // radius, since sin is 1).
    for j in 0..7 {
        for i in 0..7 {
            let curve = &scene.curves[j][i];
            assert_eq!(curve.path.len(), 1);
            assert_eq!(curve.path[0].x, (scene.cols[i].x as i64) * FP_ONE);
            assert_eq!(curve.path[0].y, (scene.rows[j].y as i64 + 30) * FP_ONE);
        }
    }
    // The literal coordinates for circle indices 0 and 6.
    assert_eq!(scene.curves[0][0].path[0].x, 7864320);
    assert_eq!(scene.curves[0][0].path[0].y, 9830400);
    assert_eq!(scene.curves[6][6].path[0].x, 39321600);
    assert_eq!(scene.curves[6][6].path[0].y, 41287680);
    // The point's color blends the row and column hues.
    assert_eq!(scene.curves[0][0].path[0].color, Rgba::new(128, 128, 0, 255));
}

#[test]
fn second_frame_uses_each_circles_own_harmonic_sample() {
    let mut scene = Scene::new(700, 700);
    scene.show(&uniform_trig(7, top_of_circle()), &uniform_trig(7, top_of_circle()));
    scene.update();
    assert_eq!(scene.angle_steps, 1);
    // One step on, circle k's marker angle is -(k+1)*pi/400 + pi/2, so
    // every circle now gets its own sample.
    let mut trig = Vec::new();
    for k in 0..7u64 {
        let phase = scene.marker_phase(k as usize);
        assert_eq!(phase, k + 1);
        let angle = -(phase as f64) * std::f64::consts::PI / 400.0
            + std::f64::consts::FRAC_PI_2;
        trig.push(TrigSample {
            cos_fp: (angle.cos() * FP_ONE as f64).round() as i64,
            sin_fp: (angle.sin() * FP_ONE as f64).round() as i64,
        });
    }
    scene.show(&trig, &trig);
    for j in 0..7 {
        for i in 0..7 {
            let p = scene.curves[j][i].path[1];
            assert_eq!(p.x, (scene.cols[i].x as i64) * FP_ONE + 30 * trig[i].cos_fp);
            assert_eq!(p.y, (scene.rows[j].y as i64) * FP_ONE + 30 * trig[j].sin_fp);
        }
    }
}

#[test]
fn single_cell_grid_runs_a_frame() {
    let mut scene = Scene::new(160, 170);
    assert_eq!(scene.size(), 1);
    assert_eq!(scene.cols[0], Circle::new(120, 40, 30, Rgba::new(0, 255, 0, 255)));
    assert_eq!(scene.rows[0], Circle::new(40, 120, 30, Rgba::new(255, 0, 0, 255)));
    let ops = scene.show(
        &uniform_trig(1, top_of_circle()),
        &uniform_trig(1, top_of_circle()),
    );
    assert_eq!(ops.len(), 6);
    assert_eq!(scene.curves[0][0].path.len(), 1);
}

#[test]
fn eight_hundred_updates_reset_exactly_once() {
    let mut scene = Scene::new(700, 700);
    let col_trig = uniform_trig(7, top_of_circle());
    let row_trig = uniform_trig(7, top_of_circle());
    scene.show(&col_trig, &row_trig);
    assert_eq!(scene.curves[3][4].path.len(), 1);

    let mut resets = 0;
    for step in 1..=800u32 {
        let before = scene.curves[3][4].path.len();
        scene.update();
        let after = scene.curves[3][4].path.len();
        if before > 0 && after == 0 {
            resets += 1;
            // The reset lands exactly on the revolution's last update.
            assert_eq!(step, 800);
        }
    }
    assert_eq!(resets, 1);
    assert_eq!(scene.angle_steps, 0);
    for j in 0..7 {
        for i in 0..7 {
            assert_eq!(scene.curves[j][i].path.len(), 0);
        }
    }
}

#[test]
fn angle_counts_up_until_the_revolution_completes() {
    let mut scene = Scene::new(700, 700);
    for expected in 1..800u32 {
        scene.update();
        assert_eq!(scene.angle_steps, expected);
    }
    scene.update();
    assert_eq!(scene.angle_steps, 0);
}

#[test]
fn resize_rebuild_drops_all_paths_and_restarts_the_angle() {
    let mut scene = Scene::new(700, 700);
    let col_trig = uniform_trig(7, top_of_circle());
    let row_trig = uniform_trig(7, top_of_circle());
    scene.show(&col_trig, &row_trig);
    scene.update();
    scene.show(&col_trig, &row_trig);
    assert_eq!(scene.curves[2][5].path.len(), 2);
    assert_eq!(scene.angle_steps, 1);

    // The viewport shrank: the driver must rebuild.
    assert!(scene.needs_rebuild(500, 500));
    assert!(!scene.needs_rebuild(700, 700));
    let scene = Scene::new(500, 500);
    assert_eq!(scene.size(), 5);
    assert_eq!(scene.angle_steps, 0);
    for j in 0..5 {
        for i in 0..5 {
            assert_eq!(scene.curves[j][i].path.len(), 0);
        }
    }
}

#[test]
fn pacing_waits_only_for_the_remainder() {
    assert_eq!(pacing_wait_ms(33, 12), 21);
    assert_eq!(pacing_wait_ms(33, 33), 0);
    assert_eq!(pacing_wait_ms(33, 40), 0);
    assert_eq!(pacing_wait_ms(0, 0), 0);
}
