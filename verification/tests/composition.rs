//! End-to-end checks of the composed scenes, the path structure of the
//! generators, and the numeric meaning of the exact scalars.

use chainring::frame::render_frame;
use chainring::frame::BLUE_COLOR;
use chainring::frame::CYAN_COLOR;
use chainring::frame::GREEN_COLOR;
use chainring::frame::MAGENTA_COLOR;
use chainring::frame::OVERLAY_COLOR;
use chainring::frame::RED_COLOR;
use chainring::frame::YELLOW_COLOR;
use chainring::geom::point_in_circle;
use chainring::geom::Point;
use chainring::geom::Seg;
use chainring::num::Frac;
use chainring::num::Len;
use chainring::paint::gradient;
use chainring::paint::FillSource;
use chainring::paint::Style;
use chainring::ring::chain_ring_path;
use chainring::ring::DARK_BROWN_COLOR;
use chainring::ring::RUST_COLOR;
use chainring::ring::STEEL_COLOR;
use chainring::scene::DrawCmd;
use chainring::scene::Shape;
use chainring::tri::triangle;
use chainring::tri::InvalidVertex;

fn frac_value(f: Frac) -> f64 {
    f.num as f64 / f.den as f64
}

fn len_value(l: Len) -> f64 {
    frac_value(l.p) + frac_value(l.q) / std::f64::consts::PI + frac_value(l.t) / 3f64.sqrt()
}

fn point_value(p: &Point) -> (f64, f64) {
    match p {
        Point::At { x, y } => (frac_value(*x), frac_value(*y)),
        Point::OnCircle { center, radius, degrees } => {
            let (cx, cy) = point_value(center);
            let r = len_value(*radius);
            let a = frac_value(*degrees).to_radians();
            (cx + r * a.cos(), cy - r * a.sin())
        }
    }
}

fn seg_end(s: &Seg) -> &Point {
    match s {
        Seg::LineTo { p } => p,
        Seg::CubicTo { p, .. } => p,
    }
}

fn close_to(a: (f64, f64), b: (f64, f64)) -> bool {
    (a.0 - b.0).abs() < 1e-6 && (a.1 - b.1).abs() < 1e-6
}

/// The paint-order colors of the eight triangle draws of every frame.
const TRIANGLE_COLORS: [u32; 8] = [
    GREEN_COLOR,
    BLUE_COLOR,
    RED_COLOR,
    YELLOW_COLOR,
    CYAN_COLOR,
    MAGENTA_COLOR,
    OVERLAY_COLOR,
    OVERLAY_COLOR,
];

#[test]
fn cycle_length_follows_step_formula() {
    // step = 12 * bpm / (60 * fps) = 0.6 degrees; the cycle rounds 360 / 0.6.
    let (_, remaining) = render_frame(0, 20, 60, 800, 800);
    assert_eq!(remaining, 599);
    let (_, at_end) = render_frame(599, 20, 60, 800, 800);
    assert_eq!(at_end, 0);
    let (_, wrapped) = render_frame(600, 20, 60, 800, 800);
    assert_eq!(wrapped, 599);
}

#[test]
fn sixty_frame_cycle_counts_down_and_wraps() {
    // A 6-degree step gives a 60-frame cycle: the count runs 59, ..., 0 and
    // wraps back to 59.
    let (_, remaining) = render_frame(0, 20, 600, 800, 800);
    assert_eq!(remaining, 59);
    let (_, at_end) = render_frame(59, 20, 600, 800, 800);
    assert_eq!(at_end, 0);
    let (_, wrapped) = render_frame(60, 20, 600, 800, 800);
    assert_eq!(wrapped, 59);
    let (_, second_cycle) = render_frame(61, 20, 600, 800, 800);
    assert_eq!(second_cycle, 58);
}

#[test]
fn render_frame_is_deterministic() {
    let (scene_a, rem_a) = render_frame(17, 20, 60, 800, 600);
    let (scene_b, rem_b) = render_frame(17, 20, 60, 800, 600);
    assert_eq!(rem_a, rem_b);
    assert_eq!(scene_a, scene_b);
}

#[test]
fn point_on_circle_full_turn_is_identity() {
    let center = Point::At { x: Frac { num: 7, den: 2 }, y: Frac { num: -4, den: 1 } };
    let radius = Len {
        p: Frac { num: 25, den: 3 },
        q: Frac { num: 1, den: 1 },
        t: Frac { num: 0, den: 1 },
    };
    let theta = Frac { num: 1234, den: 7 };
    let theta_plus_turn = Frac { num: 1234 + 360 * 7, den: 7 };
    let center_copy = center.duplicate();
    let p = point_in_circle(center, radius, theta);
    let q = point_in_circle(center_copy, radius, theta_plus_turn);
    assert!(close_to(point_value(&p), point_value(&q)));
}

#[test]
fn chain_ring_path_has_teeth_scallops_and_rosettes() {
    let path = chain_ring_path(400, 32);
    assert_eq!(path.contours.len(), 7);

    // Outer contour: 32 repeating tooth units (cubic tip, gap line, foot
    // line), 3 * 32 - 1 segments since the first foot is the start.
    let outer = &path.contours[0];
    assert_eq!(outer.segs.len(), 95);
    for (k, seg) in outer.segs.iter().enumerate() {
        if (k + 1) % 3 == 1 {
            assert!(matches!(seg, Seg::CubicTo { .. }));
        } else {
            assert!(matches!(seg, Seg::LineTo { .. }));
        }
    }

    // Inner scallop: 5 lobes of two cubics, joined by lines.
    let scallop = &path.contours[1];
    assert_eq!(scallop.segs.len(), 14);
    for (k, seg) in scallop.segs.iter().enumerate() {
        if (k + 1) % 3 == 0 {
            assert!(matches!(seg, Seg::LineTo { .. }));
        } else {
            assert!(matches!(seg, Seg::CubicTo { .. }));
        }
    }

    // Five rosettes, each a closed contour of exactly four cubics.
    for i in 2..7 {
        let rosette = &path.contours[i];
        assert_eq!(rosette.segs.len(), 4);
        for seg in rosette.segs.iter() {
            assert!(matches!(seg, Seg::CubicTo { .. }));
        }
        let end = seg_end(&rosette.segs[3]);
        assert!(close_to(point_value(end), point_value(&rosette.start)));
    }
}

#[test]
fn chain_ring_tooth_geometry_is_exact() {
    // At radius 400 and 32 teeth the rim sits at 352 = 88 * 400 / 100 and
    // the first tooth's foot at 85.5 degrees; the tip control points bulge
    // to 414 = 1035 * 400 / 1000 at the 90-degree sector midpoint.
    let path = chain_ring_path(400, 32);
    let start = &path.contours[0].start;
    match start {
        Point::OnCircle { radius, degrees, .. } => {
            assert!((len_value(*radius) - 352.0).abs() < 1e-9);
            assert!((frac_value(*degrees) - 85.5).abs() < 1e-9);
        }
        _ => panic!("the outer contour must start on the rim circle"),
    }
    match &path.contours[0].segs[0] {
        Seg::CubicTo { c1, c2, p } => {
            match c1 {
                Point::OnCircle { radius, degrees, .. } => {
                    assert!((len_value(*radius) - 414.0).abs() < 1e-9);
                    assert!((frac_value(*degrees) - 90.0).abs() < 1e-9);
                }
                _ => panic!("tooth controls sit on the bulge circle"),
            }
            assert_eq!(c1, c2);
            match p {
                Point::OnCircle { degrees, .. } => {
                    assert!((frac_value(*degrees) - 94.5).abs() < 1e-9);
                }
                _ => panic!("the tooth lands back on the rim"),
            }
        }
        _ => panic!("the first segment is the first tooth's tip"),
    }
}

#[test]
fn triangle_rounded_edges_are_cubics() {
    let cmd = triangle((400, 400), 212, Frac { num: 60, den: 1 }, None, OVERLAY_COLOR, true, 800)
        .unwrap();
    let path = match &cmd.shape {
        Shape::PathShape { path } => path,
        _ => panic!("a triangle draws a path"),
    };
    assert_eq!(path.contours.len(), 1);
    let contour = &path.contours[0];
    assert_eq!(contour.segs.len(), 3);
    for seg in contour.segs.iter() {
        assert!(matches!(seg, Seg::CubicTo { .. }));
    }
    // The loop closes: the last edge ends where the contour starts.
    let end = seg_end(&contour.segs[2]);
    assert!(close_to(point_value(end), point_value(&contour.start)));
}

#[test]
fn triangle_straight_edges_are_lines() {
    let cmd = triangle((400, 400), 212, Frac { num: 60, den: 1 }, None, OVERLAY_COLOR, false, 800)
        .unwrap();
    let path = match &cmd.shape {
        Shape::PathShape { path } => path,
        _ => panic!("a triangle draws a path"),
    };
    let contour = &path.contours[0];
    assert_eq!(contour.segs.len(), 3);
    for seg in contour.segs.iter() {
        assert!(matches!(seg, Seg::LineTo { .. }));
    }
    let end = seg_end(&contour.segs[2]);
    assert!(close_to(point_value(end), point_value(&contour.start)));
}

#[test]
fn equal_radii_make_a_circular_gradient() {
    let r = Len { p: Frac { num: 100, den: 1 }, q: Frac { num: 0, den: 1 }, t: Frac { num: 0, den: 1 } };
    let g = gradient(
        Point::At { x: Frac { num: 0, den: 1 }, y: Frac { num: 0, den: 1 } },
        (r, r),
        (STEEL_COLOR, RUST_COLOR),
    );
    assert_eq!(g.rx, g.ry);
    assert!((len_value(g.ry) / len_value(g.rx) - 1.0).abs() < 1e-12);
}

#[test]
fn unequal_radii_make_an_elliptical_gradient() {
    let rx = Len { p: Frac { num: 100, den: 1 }, q: Frac { num: 0, den: 1 }, t: Frac { num: 0, den: 1 } };
    let ry = Len { p: Frac { num: 250, den: 1 }, q: Frac { num: 0, den: 1 }, t: Frac { num: 0, den: 1 } };
    let g = gradient(
        Point::At { x: Frac { num: 0, den: 1 }, y: Frac { num: 0, den: 1 } },
        (rx, ry),
        (STEEL_COLOR, RUST_COLOR),
    );
    assert_ne!(g.rx, g.ry);
    // The placing transform scales the vertical axis by exactly ry / rx.
    assert_eq!(len_value(g.ry) / len_value(g.rx), 2.5);
}

#[test]
fn vertex_index_out_of_range_is_fatal() {
    let r = triangle((400, 400), 212, Frac { num: 60, den: 1 }, Some(3), GREEN_COLOR, true, 800);
    assert_eq!(r, Err(InvalidVertex { index: 3 }));
    let r = triangle((400, 400), 212, Frac { num: 60, den: 1 }, Some(-1), GREEN_COLOR, false, 800);
    assert_eq!(r, Err(InvalidVertex { index: -1 }));
    let r = triangle((400, 400), 212, Frac { num: 60, den: 1 }, Some(2), GREEN_COLOR, true, 800);
    assert!(r.is_ok());
}

#[test]
fn scene_draws_in_the_documented_order() {
    // 800 x 800 at fps = 20, bpm = 60, frame 0: ring radius 400, triangle
    // radius 212, rotation 0, triangle rotation 60.
    let (scene, _) = render_frame(0, 20, 60, 800, 800);
    assert_eq!(scene.len(), 11);

    // Chain ring: gradient fill, solid stroke, then the ridge circle.
    let fill = &scene[0];
    assert_eq!((fill.transform.tx, fill.transform.ty), (400, 400));
    assert_eq!(frac_value(fill.transform.rot), 0.0);
    assert!(matches!(fill.paint.style, Style::Fill));
    match &fill.paint.source {
        FillSource::Radial { gradient } => {
            assert_eq!(gradient.inner, STEEL_COLOR);
            assert_eq!(gradient.outer, RUST_COLOR);
            let (lo, hi) = gradient.stops.expect("the ring gradient has explicit stops");
            assert_eq!(frac_value(lo), 0.8);
            assert_eq!(frac_value(hi), 1.0);
        }
        _ => panic!("the ring is filled with a gradient"),
    }
    match &fill.shape {
        Shape::PathShape { path } => assert_eq!(path.contours.len(), 7),
        _ => panic!("the ring fill draws the toothed path"),
    }

    let stroke = &scene[1];
    assert!(matches!(stroke.paint.style, Style::Stroke));
    assert!(
        matches!(&stroke.paint.source, FillSource::Color { argb } if *argb == DARK_BROWN_COLOR)
    );

    let ridge = &scene[2];
    assert_eq!(frac_value(ridge.transform.rot), 0.0);
    match &ridge.shape {
        Shape::Circle { radius, .. } => assert_eq!(len_value(*radius), 340.0),
        _ => panic!("the ridge is a circle"),
    }

    // Eight triangles: rounded green/blue/red, straight yellow/cyan/magenta,
    // then the rounded and straight overlays, all rotated 60 degrees.
    for (n, expected_color) in TRIANGLE_COLORS.iter().enumerate() {
        let cmd: &DrawCmd = &scene[3 + n];
        let rounded = n < 3 || n == 6;
        let path = match &cmd.shape {
            Shape::PathShape { path } => path,
            _ => panic!("a triangle draws a path"),
        };
        for seg in path.contours[0].segs.iter() {
            if rounded {
                assert!(matches!(seg, Seg::CubicTo { .. }));
            } else {
                assert!(matches!(seg, Seg::LineTo { .. }));
            }
        }
        match &path.contours[0].start {
            Point::OnCircle { radius, degrees, .. } => {
                assert_eq!(len_value(*radius), 212.0);
                assert_eq!(frac_value(*degrees), 60.0);
            }
            _ => panic!("triangle vertices sit on the circumscribed circle"),
        }
        match &cmd.paint.source {
            FillSource::Radial { gradient } => {
                if n < 6 {
                    assert_eq!(gradient.inner, *expected_color);
                    assert!(matches!(cmd.paint.style, Style::Fill));
                } else {
                    assert_eq!(gradient.outer, *expected_color);
                    assert!(matches!(cmd.paint.style, Style::Stroke));
                }
            }
            _ => panic!("every triangle is shaded by a gradient"),
        }
    }
}

#[test]
fn pen_width_is_at_least_one_pixel() {
    // On a narrow canvas the outline pen is one pixel; on a wide one it is
    // width / 360.
    let narrow = triangle((50, 50), 26, Frac { num: 0, den: 1 }, None, OVERLAY_COLOR, true, 100)
        .unwrap();
    assert_eq!(frac_value(narrow.paint.stroke_width), 1.0);
    let wide = triangle((400, 400), 212, Frac { num: 0, den: 1 }, None, OVERLAY_COLOR, true, 720)
        .unwrap();
    assert_eq!(frac_value(wide.paint.stroke_width), 2.0);
}

#[test]
fn vertex_gradient_radii_follow_the_table() {
    // At radius 212 the side is 4 * 212 / sqrt(3). Rounded vertex 0 uses
    // (0.36, 0.404) of the side; straight vertex 1 uses (0.420, 0.50).
    let side = 4.0 * 212.0 / 3f64.sqrt();
    let rounded = triangle((400, 400), 212, Frac { num: 60, den: 1 }, Some(0), GREEN_COLOR, true, 800)
        .unwrap();
    match &rounded.paint.source {
        FillSource::Radial { gradient } => {
            assert!((len_value(gradient.rx) - 0.36 * side).abs() < 1e-9);
            assert!((len_value(gradient.ry) - 0.404 * side).abs() < 1e-9);
        }
        _ => panic!("vertex mode fills with a gradient"),
    }
    let straight = triangle((400, 400), 212, Frac { num: 60, den: 1 }, Some(1), CYAN_COLOR, false, 800)
        .unwrap();
    match &straight.paint.source {
        FillSource::Radial { gradient } => {
            assert!((len_value(gradient.rx) - 0.420 * side).abs() < 1e-9);
            assert!((len_value(gradient.ry) - 0.50 * side).abs() < 1e-9);
        }
        _ => panic!("vertex mode fills with a gradient"),
    }
}

#[test]
fn bolt_rosettes_sit_on_the_bolt_circle() {
    // bolt_radius = 0.73 * 0.81 * 0.3 * r / pi, and the rosette centers sit
    // at inner_radius + 0.33 * bolt_radius.
    let path = chain_ring_path(400, 32);
    let bolt_radius = 0.73 * 0.81 * 0.3 * 400.0 / std::f64::consts::PI;
    match &path.contours[2].start {
        Point::OnCircle { center, radius, degrees } => {
            assert!((len_value(*radius) - bolt_radius).abs() < 1e-9);
            assert_eq!(frac_value(*degrees), 90.0);
            match center.as_ref() {
                Point::OnCircle { radius, degrees, .. } => {
                    assert!((len_value(*radius) - (292.0 + 0.33 * bolt_radius)).abs() < 1e-9);
                    assert_eq!(frac_value(*degrees), 90.0);
                }
                _ => panic!("rosette centers sit on the center circle"),
            }
        }
        _ => panic!("a rosette starts on its bolt circle"),
    }
}

#[test]
fn non_square_canvas_uses_the_smaller_dimension() {
    let (scene, _) = render_frame(0, 20, 60, 800, 600);
    assert_eq!(scene.len(), 11);
    // size = 600: the ring is centered at (300, 300) with radius 300, so
    // the ridge circle spans 0.85 * 300.
    assert_eq!((scene[0].transform.tx, scene[0].transform.ty), (300, 300));
    match &scene[2].shape {
        Shape::Circle { radius, .. } => assert_eq!(len_value(*radius), 255.0),
        _ => panic!("the ridge is a circle"),
    }
    // triangle radius = 300 * 53 / 100, rounded down by integer division
    match &scene[3].shape {
        Shape::PathShape { path } => match &path.contours[0].start {
            Point::OnCircle { radius, .. } => assert_eq!(len_value(*radius), 159.0),
            _ => panic!("triangle vertices sit on the circumscribed circle"),
        },
        _ => panic!("a triangle draws a path"),
    }
}

#[test]
fn one_pixel_canvas_still_composes() {
    // The smallest canvas in contract: every radius degenerates to zero but
    // the scene keeps its shape and order.
    let (scene, remaining) = render_frame(0, 1, 1, 1, 1);
    assert_eq!(scene.len(), 11);
    assert_eq!(remaining, 1799);
}
