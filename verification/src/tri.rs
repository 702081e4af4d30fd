//! The triangle generator: one "piston" shape of the composite.
//!
//! A triangle is inscribed in a circle, its three vertices 120 degrees apart
//! starting from the given rotation. With `wankel` set, each edge is a cubic
//! Bezier whose control points pull in to nine tenths of the radius at one
//! and two thirds of the edge's angular span, giving the bulged rotor
//! silhouette; otherwise the edges are straight lines.
//!
//! Two modes are drawn. Vertex mode fills the whole shape with a radial
//! gradient centered at one vertex, fading from the given color to a fully
//! transparent blue-tinted black; its radius pair is a fixed table keyed by
//! the vertex index and the `wankel` flag, in thousandths of the side
//! length. Outline mode strokes the shape with a bevel-joined pen shaded
//! from white above the center down to the given color.

use crate::geom::point_in_circle;
use crate::geom::Contour;
use crate::geom::ContourModel;
use crate::geom::Path;
use crate::geom::PathModel;
use crate::geom::Point;
use crate::geom::Seg;
use crate::num::Frac;
use crate::num::Len;
use crate::paint::gradient;
use crate::paint::spec_pen_width;
use crate::paint::pen_width;
use crate::paint::FillSource;
use crate::paint::Gradient;
use crate::paint::Paint;
use crate::paint::Style;
use crate::paint::StrokeJoin;
use crate::scene::DrawCmd;
use crate::scene::DrawCmdModel;
use crate::scene::Shape;
use crate::scene::ShapeModel;
use crate::scene::Transform;
use vstd::prelude::*;

verus! {

/// The outer stop of a vertex-mode gradient: fully transparent,
/// blue-tinted black.
pub const VERTEX_FADE_COLOR: u32 = 0x0000_00ff;

/// The inner stop of an outline-mode stroke gradient: opaque white.
pub const OUTLINE_HIGHLIGHT_COLOR: u32 = 0xffff_ffff;

/// A vertex index outside `{0, 1, 2}` was passed in vertex mode: a fatal
/// contract violation of the triangle generator.
#[derive(PartialEq, Eq, Debug)]
pub struct InvalidVertex {
    pub index: i64,
}

/// The vertex-gradient radius pair `(rx, ry)` for a vertex index and the
/// `wankel` flag, in thousandths of the triangle's side length. The six
/// pairs are fixed design constants of the drawing.
pub open spec fn spec_vertex_radii(index: int, wankel: bool) -> (int, int) {
    if index == 1 {
        if wankel {
            (404, 500)
        } else {
            (420, 500)
        }
    } else {
        if wankel {
            (360, 404)
        } else {
            (300, 600)
        }
    }
}

/// Look up the vertex-gradient radius pair, in thousandths of the side.
pub fn vertex_radii_permille(index: i64, wankel: bool) -> (r: (i64, i64))
    requires
        0 <= index <= 2,
    ensures
        (r.0 as int, r.1 as int) == spec_vertex_radii(index as int, wankel),
{
    if index == 1 {
        if wankel {
            (404, 500)
        } else {
            (420, 500)
        }
    } else {
        if wankel {
            (360, 404)
        } else {
            (300, 600)
        }
    }
}

/// The triangle's center as a point.
pub open spec fn spec_tri_center(cx: i64, cy: i64) -> Point {
    Point::At { x: Frac { num: cx, den: 1 }, y: Frac { num: cy, den: 1 } }
}

/// The vertex `k` steps of 120 degrees past the rotation angle.
pub open spec fn spec_tri_vertex(cx: i64, cy: i64, radius: i64, degrees: Frac, k: int) -> Point {
    Point::OnCircle {
        center: Box::new(spec_tri_center(cx, cy)),
        radius: Len {
            p: Frac { num: radius, den: 1 },
            q: Frac { num: 0, den: 1 },
            t: Frac { num: 0, den: 1 },
        },
        degrees: if k == 0 {
            degrees
        } else {
            degrees.plus_int(120 * k)
        },
    }
}

/// A control point of a bulged edge: nine tenths of the radius, at `back`
/// degrees before the edge's end angle `degrees + 120 * k`.
pub open spec fn spec_tri_control(cx: i64, cy: i64, radius: i64, degrees: Frac, k: int, back: int) -> Point {
    Point::OnCircle {
        center: Box::new(spec_tri_center(cx, cy)),
        radius: Len {
            p: Frac { num: (9 * radius) as i64, den: 10 },
            q: Frac { num: 0, den: 1 },
            t: Frac { num: 0, den: 1 },
        },
        degrees: degrees.plus_int(120 * k - back),
    }
}

/// The edge reaching vertex `k` (for `k` in `1..=3`): a cubic Bezier with
/// pulled-in control points when `wankel` holds, a straight line otherwise.
pub open spec fn spec_tri_edge(cx: i64, cy: i64, radius: i64, degrees: Frac, k: int, wankel: bool) -> Seg {
    if wankel {
        Seg::CubicTo {
            c1: spec_tri_control(cx, cy, radius, degrees, k, 80),
            c2: spec_tri_control(cx, cy, radius, degrees, k, 40),
            p: spec_tri_vertex(cx, cy, radius, degrees, k),
        }
    } else {
        Seg::LineTo { p: spec_tri_vertex(cx, cy, radius, degrees, k) }
    }
}

/// The triangle's path: one closed contour from the vertex at the rotation
/// angle, through the vertices at 120 and 240 degrees past it, back to the
/// start (a full turn past the rotation angle).
pub open spec fn spec_triangle_path(cx: i64, cy: i64, radius: i64, degrees: Frac, wankel: bool) -> PathModel {
    PathModel {
        contours: seq![
            ContourModel {
                start: spec_tri_vertex(cx, cy, radius, degrees, 0),
                segs: seq![
                    spec_tri_edge(cx, cy, radius, degrees, 1, wankel),
                    spec_tri_edge(cx, cy, radius, degrees, 2, wankel),
                    spec_tri_edge(cx, cy, radius, degrees, 3, wankel),
                ],
            },
        ],
    }
}

/// The vertex-mode fill paint: a radial gradient at vertex `index`, fading
/// from `color` to transparency, with the tabled radius pair scaled by the
/// side length `4 * radius / sqrt(3)`.
pub open spec fn spec_vertex_paint(cx: i64, cy: i64, radius: i64, degrees: Frac, index: int, color: u32, wankel: bool) -> Paint {
    Paint {
        style: Style::Fill,
        anti_alias: false,
        stroke_width: Frac { num: 0, den: 1 },
        join: StrokeJoin::Miter,
        source: FillSource::Radial {
            gradient: Gradient {
                center: spec_tri_vertex(cx, cy, radius, degrees, index),
                rx: Len {
                    p: Frac { num: 0, den: 1 },
                    q: Frac { num: 0, den: 1 },
                    t: Frac {
                        num: (4 * radius * spec_vertex_radii(index, wankel).0) as i64,
                        den: 1000,
                    },
                },
                ry: Len {
                    p: Frac { num: 0, den: 1 },
                    q: Frac { num: 0, den: 1 },
                    t: Frac {
                        num: (4 * radius * spec_vertex_radii(index, wankel).1) as i64,
                        den: 1000,
                    },
                },
                inner: color,
                outer: VERTEX_FADE_COLOR,
                stops: None,
            },
        },
    }
}

/// The outline-mode stroke paint: an anti-aliased, bevel-joined pen whose
/// shader fades from white, half a radius above the center, down to `color`.
pub open spec fn spec_outline_paint(cx: i64, cy: i64, radius: i64, color: u32, canvas_width: i64) -> Paint {
    Paint {
        style: Style::Stroke,
        anti_alias: true,
        stroke_width: spec_pen_width(canvas_width as int),
        join: StrokeJoin::Bevel,
        source: FillSource::Radial {
            gradient: Gradient {
                center: Point::At {
                    x: Frac { num: cx, den: 1 },
                    y: Frac { num: (2 * cy - radius) as i64, den: 2 },
                },
                rx: Len {
                    p: Frac { num: radius, den: 2 },
                    q: Frac { num: 0, den: 1 },
                    t: Frac { num: 0, den: 1 },
                },
                ry: Len {
                    p: Frac { num: radius, den: 2 },
                    q: Frac { num: 0, den: 1 },
                    t: Frac { num: 0, den: 1 },
                },
                inner: OUTLINE_HIGHLIGHT_COLOR,
                outer: color,
                stops: None,
            },
        },
    }
}

/// The whole draw call of one triangle: its path under the identity
/// transform, painted for the requested mode.
pub open spec fn spec_triangle_cmd(center: (i64, i64), radius: i64, degrees: Frac, vertex: Option<i64>, color: u32, wankel: bool, canvas_width: i64) -> DrawCmdModel {
    DrawCmdModel {
        transform: Transform { tx: 0, ty: 0, rot: Frac { num: 0, den: 1 } },
        shape: ShapeModel::PathShape {
            path: spec_triangle_path(center.0, center.1, radius, degrees, wankel),
        },
        paint: match vertex {
            Some(index) => spec_vertex_paint(
                center.0,
                center.1,
                radius,
                degrees,
                index as int,
                color,
                wankel,
            ),
            None => spec_outline_paint(center.0, center.1, radius, color, canvas_width),
        },
    }
}

/// Build the edge reaching vertex `k`.
fn tri_edge(cx: i64, cy: i64, radius: i64, degrees: Frac, k: i64, wankel: bool) -> (s: Seg)
    requires
        degrees.wf(),
        degrees.small(),
        0 <= radius <= 1_000_000,
        1 <= k <= 3,
    ensures
        s == spec_tri_edge(cx, cy, radius, degrees, k as int, wankel),
{
    let rlen = Len::rational(Frac::new(radius, 1));
    let end = point_in_circle(Point::at(Frac::whole(cx), Frac::whole(cy)), rlen, degrees.add_int(120 * k));
    if wankel {
        let blen = Len::rational(Frac::new(9 * radius, 10));
        let c1 = point_in_circle(
            Point::at(Frac::whole(cx), Frac::whole(cy)),
            blen,
            degrees.add_int(120 * k - 80),
        );
        let c2 = point_in_circle(
            Point::at(Frac::whole(cx), Frac::whole(cy)),
            blen,
            degrees.add_int(120 * k - 40),
        );
        Seg::CubicTo { c1, c2, p: end }
    } else {
        Seg::LineTo { p: end }
    }
}

/// Draw one triangle.
///
/// `center` and `radius` place the circumscribing circle in canvas pixels;
/// `degrees` is the rotation of the first vertex. With `vertex` set, the
/// shape is filled in vertex mode for that vertex index and `color`; with
/// `vertex` absent, the shape is stroked in outline mode. `wankel` selects
/// the bulged silhouette. A vertex index outside `{0, 1, 2}` is a contract
/// violation: nothing is drawn and the error names the index.
///
/// The size bounds keep every exact numerator within `i64`.
pub fn triangle(center: (i64, i64), radius: i64, degrees: Frac, vertex: Option<i64>, color: u32, wankel: bool, canvas_width: i64) -> (r: Result<
    DrawCmd,
    InvalidVertex,
>)
    requires
        degrees.wf(),
        degrees.small(),
        -1_000_000 <= center.0 <= 1_000_000,
        -1_000_000 <= center.1 <= 1_000_000,
        0 <= radius <= 1_000_000,
        1 <= canvas_width <= 1_000_000,
    ensures
        r is Err <==> (vertex matches Some(index) && !(0 <= index <= 2)),
        r matches Err(e) ==> vertex matches Some(index) && e.index == index,
        r matches Ok(cmd) ==> cmd@ == spec_triangle_cmd(
            center,
            radius,
            degrees,
            vertex,
            color,
            wankel,
            canvas_width,
        ),
{
    let (cx, cy) = center;
    let paint = match vertex {
        Some(index) => {
            if index < 0 || index > 2 {
                return Err(InvalidVertex { index });
            }
            let a = degrees.add_int(120 * index);
            let vertex_center = point_in_circle(
                Point::at(Frac::whole(cx), Frac::whole(cy)),
                Len::rational(Frac::new(radius, 1)),
                a,
            );
            let radii = vertex_radii_permille(index, wankel);
            proof {
                assert(0 <= 4 * radius * radii.0 <= 0x1_0000_0000 && 0 <= 4 * radius * radii.1
                    <= 0x1_0000_0000) by (nonlinear_arith)
                    requires
                        0 <= radius <= 1_000_000,
                        0 <= radii.0 <= 600,
                        0 <= radii.1 <= 600,
                ;
            }
            let rx = Len::over_sqrt3(Frac::new(4 * radius * radii.0, 1000));
            let ry = Len::over_sqrt3(Frac::new(4 * radius * radii.1, 1000));
            let g = gradient(vertex_center, (rx, ry), (color, VERTEX_FADE_COLOR));
            let p = Paint {
                style: Style::Fill,
                anti_alias: false,
                stroke_width: Frac::whole(0),
                join: StrokeJoin::Miter,
                source: FillSource::Radial { gradient: g },
            };
            proof {
                crate::num::lemma_plus_int_zero(degrees);
                assert(p == spec_vertex_paint(cx, cy, radius, degrees, index as int, color, wankel));
            }
            p
        },
        None => {
            let g = gradient(
                Point::at(Frac::whole(cx), Frac::new(2 * cy - radius, 2)),
                (Len::rational(Frac::new(radius, 2)), Len::rational(Frac::new(radius, 2))),
                (OUTLINE_HIGHLIGHT_COLOR, color),
            );
            let p = Paint {
                style: Style::Stroke,
                anti_alias: true,
                stroke_width: pen_width(canvas_width),
                join: StrokeJoin::Bevel,
                source: FillSource::Radial { gradient: g },
            };
            p
        },
    };
    let start = point_in_circle(
        Point::at(Frac::whole(cx), Frac::whole(cy)),
        Len::rational(Frac::new(radius, 1)),
        degrees,
    );
    let mut segs: Vec<Seg> = Vec::new();
    segs.push(tri_edge(cx, cy, radius, degrees, 1, wankel));
    segs.push(tri_edge(cx, cy, radius, degrees, 2, wankel));
    segs.push(tri_edge(cx, cy, radius, degrees, 3, wankel));
    let mut contours: Vec<Contour> = Vec::new();
    contours.push(Contour { start, segs });
    let path = Path { contours };
    let cmd = DrawCmd {
        transform: Transform { tx: 0, ty: 0, rot: Frac::whole(0) },
        shape: Shape::PathShape { path },
        paint,
    };
    proof {
        assert(segs@ =~~= seq![
            spec_tri_edge(cx, cy, radius, degrees, 1, wankel),
            spec_tri_edge(cx, cy, radius, degrees, 2, wankel),
            spec_tri_edge(cx, cy, radius, degrees, 3, wankel),
        ]);
        assert(cmd@ =~~= spec_triangle_cmd(center, radius, degrees, vertex, color, wankel, canvas_width));
    }
    Ok(cmd)
}

/// Edge shape and closure of the triangle path: the path is one contour of
/// exactly three edge segments, every one a cubic Bezier in wankel mode and
/// a straight line otherwise, and the contour closes on itself — the last
/// edge ends a full turn past the start angle, at a point equivalent to the
/// contour's start.
pub proof fn lemma_triangle_edges(cx: i64, cy: i64, radius: i64, degrees: Frac, wankel: bool)
    requires
        degrees.wf(),
        degrees.small(),
    ensures
        spec_triangle_path(cx, cy, radius, degrees, wankel).contours.len() == 1,
        spec_triangle_path(cx, cy, radius, degrees, wankel).contours[0].segs.len() == 3,
        forall|k: int|
            0 <= k < 3 ==> (spec_triangle_path(cx, cy, radius, degrees, wankel).contours[0].segs[k]
                is CubicTo <==> wankel),
        forall|k: int|
            0 <= k < 3 ==> (spec_triangle_path(cx, cy, radius, degrees, wankel).contours[0].segs[k]
                is LineTo <==> !wankel),
        seg_end(spec_triangle_path(cx, cy, radius, degrees, wankel).contours[0].segs[2]).equiv(
            spec_triangle_path(cx, cy, radius, degrees, wankel).contours[0].start,
        ),
{
    let c = spec_tri_center(cx, cy);
    let rlen = Len {
        p: Frac { num: radius, den: 1 },
        q: Frac { num: 0, den: 1 },
        t: Frac { num: 0, den: 1 },
    };
    assert(degrees.plus_int(360) == degrees.plus_int(120int * 3));
    crate::geom::lemma_point_in_circle_full_turn(c, rlen, degrees);
}

/// The end point of a segment.
pub open spec fn seg_end(s: Seg) -> Point {
    match s {
        Seg::LineTo { p } => p,
        Seg::CubicTo { p, .. } => p,
    }
}

} // verus!
