//! The chain-ring generator: the toothed ring of the composite.
//!
//! The ring is one multi-contour path around the origin, drawn under a
//! transform that translates to the ring center and rotates by the frame's
//! rotation: an outer contour of `teeth_count` gear teeth, an inner
//! scalloped contour of five lobes wound the opposite way, and five closed
//! bolt-hole rosettes of four cubic segments each. The path is filled with
//! a steel-to-rust radial gradient and then stroked with a dark outline.
//! Beneath it, outside the rotated frame, sits a gradient-shaded ridge
//! circle that never rotates.
//!
//! All proportions are fixed design constants of the drawing, written here
//! as exact fractions of the outer radius: the inner rim at 73/100, the
//! ridge at 85/100, the tooth length at 12/100 (four fifths of the gap from
//! ridge to rim), the tooth bulge at 1035/1000, the scallop dip at
//! 5704/10000, the scallop bulge at 7665/10000, and the bolt radius at
//! 17739/100000 of the radius divided by pi.

use crate::geom::point_in_circle;
use crate::geom::Contour;
use crate::geom::ContourModel;
use crate::geom::Path;
use crate::geom::PathModel;
use crate::geom::Point;
use crate::geom::Seg;
use crate::num::Frac;
use crate::num::Len;
use crate::paint::spec_pen_width;
use crate::paint::pen_width;
use crate::paint::FillSource;
use crate::paint::Gradient;
use crate::paint::Paint;
use crate::paint::Style;
use crate::paint::StrokeJoin;
use crate::scene::scene_model;
use crate::scene::DrawCmd;
use crate::scene::DrawCmdModel;
use crate::scene::Shape;
use crate::scene::ShapeModel;
use crate::scene::Transform;
use vstd::prelude::*;

verus! {

/// Steel gray, the inner stop of the ring's fill gradient.
pub const STEEL_COLOR: u32 = 0xff55_5555;

/// Rust brown, the outer stop of the ring's fill gradient.
pub const RUST_COLOR: u32 = 0xff7b_492d;

/// Dark brown, the ring's stroke and the upper stop of the ridge gradient.
pub const DARK_BROWN_COLOR: u32 = 0xff59_2e1f;

/// Copper, the lower stop of the ridge gradient.
pub const COPPER_COLOR: u32 = 0xff88_5543;

/// The origin of the ring's local frame.
pub open spec fn spec_origin() -> Point {
    Point::At { x: Frac { num: 0, den: 1 }, y: Frac { num: 0, den: 1 } }
}

/// A point at `radius` and `deg_num / deg_den` degrees around the origin.
pub open spec fn spec_polar(radius: Len, deg_num: int, deg_den: i64) -> Point {
    Point::OnCircle {
        center: Box::new(spec_origin()),
        radius,
        degrees: Frac { num: deg_num as i64, den: deg_den },
    }
}

/// A purely rational length `(k / den) * r`.
pub open spec fn spec_scaled(k: int, r: i64, den: i64) -> Len {
    Len {
        p: Frac { num: (k * r) as i64, den },
        q: Frac { num: 0, den: 1 },
        t: Frac { num: 0, den: 1 },
    }
}

/// The rim radius of the teeth's feet: the outer radius less the tooth
/// length, `88/100` of the radius.
pub open spec fn spec_tooth_rim(r: i64) -> Len {
    spec_scaled(88, r, 100)
}

/// The bulge radius of a tooth's tip, `1035/1000` of the radius.
pub open spec fn spec_tooth_bulge(r: i64) -> Len {
    spec_scaled(1035, r, 1000)
}

/// The inner scalloped rim, `73/100` of the radius.
pub open spec fn spec_inner_rim(r: i64) -> Len {
    spec_scaled(73, r, 100)
}

/// The dip of a scallop lobe, `5704/10000` of the radius.
pub open spec fn spec_scallop_dip(r: i64) -> Len {
    spec_scaled(5704, r, 10000)
}

/// The outward bulge between scallop lobes, `7665/10000` of the radius.
pub open spec fn spec_scallop_bulge(r: i64) -> Len {
    spec_scaled(7665, r, 10000)
}

/// The ridge radius, `85/100` of the radius.
pub open spec fn spec_ridge(r: i64) -> Len {
    spec_scaled(85, r, 100)
}

/// The bolt-hole radius, `17739/100000` of the radius, divided by pi.
pub open spec fn spec_bolt_radius(r: i64) -> Len {
    Len {
        p: Frac { num: 0, den: 1 },
        q: Frac { num: (17739 * r) as i64, den: 100000 },
        t: Frac { num: 0, den: 1 },
    }
}

/// The control radius of a rosette segment, `114/100` of the bolt radius.
pub open spec fn spec_bolt_control_radius(r: i64) -> Len {
    Len {
        p: Frac { num: 0, den: 1 },
        q: Frac { num: (2022246 * r) as i64, den: 10000000 },
        t: Frac { num: 0, den: 1 },
    }
}

/// The radius of the circle of rosette centers: the inner rim plus a third
/// of the bolt radius.
pub open spec fn spec_bolt_center_radius(r: i64) -> Len {
    Len {
        p: Frac { num: (73 * r) as i64, den: 100 },
        q: Frac { num: (585387 * r) as i64, den: 10000000 },
        t: Frac { num: 0, den: 1 },
    }
}

/// The foot of tooth `i`, at the sector start plus half the bottom gap.
/// Angles of the outer contour have denominator `5 * t`: the sector is
/// `360 / t` degrees and the bottom gap a fifth of it.
pub open spec fn spec_tooth_start(r: i64, t: i64, i: int) -> Point {
    spec_polar(spec_tooth_rim(r), 450 * t - 720 + 1800 * i, (5 * t) as i64)
}

/// The bulged tip of tooth `i`: a cubic whose two control points sit at the
/// sector midpoint on the bulge radius, landing on the rim at the sector
/// end less half the bottom gap.
pub open spec fn spec_tooth_tip(r: i64, t: i64, i: int) -> Seg {
    Seg::CubicTo {
        c1: spec_polar(spec_tooth_bulge(r), 450 * t + 1800 * i, (5 * t) as i64),
        c2: spec_polar(spec_tooth_bulge(r), 450 * t + 1800 * i, (5 * t) as i64),
        p: spec_polar(spec_tooth_rim(r), 450 * t + 720 + 1800 * i, (5 * t) as i64),
    }
}

/// The short line across the bottom gap after tooth `i`.
pub open spec fn spec_tooth_gap(r: i64, t: i64, i: int) -> Seg {
    Seg::LineTo { p: spec_polar(spec_tooth_rim(r), 450 * t + 1080 + 1800 * i, (5 * t) as i64) }
}

/// Segment `k` of the outer contour: each tooth contributes a line to its
/// foot (absent for the first tooth, whose foot is the contour start), the
/// bulged tip, and the gap line.
pub open spec fn spec_outer_seg(r: i64, t: i64, k: int) -> Seg {
    if (k + 1) % 3 == 0 {
        Seg::LineTo { p: spec_tooth_start(r, t, (k + 1) / 3) }
    } else if (k + 1) % 3 == 1 {
        spec_tooth_tip(r, t, (k + 1) / 3)
    } else {
        spec_tooth_gap(r, t, (k + 1) / 3)
    }
}

/// The outer contour: `t` teeth, `3 t - 1` segments.
pub open spec fn spec_outer_contour(r: i64, t: i64) -> ContourModel {
    ContourModel {
        start: spec_tooth_start(r, t, 0),
        segs: Seq::new((3 * t - 1) as nat, |k: int| spec_outer_seg(r, t, k)),
    }
}

/// The start of scallop lobe `i`. The scallop winds the opposite way: its
/// sector is `-72` degrees with a bottom gap of seven tenths of it, so the
/// angles fall by 72 degrees per lobe and have denominator 500.
pub open spec fn spec_lobe_start(r: i64, i: int) -> Point {
    spec_polar(spec_inner_rim(r), 50400 - 36000 * i, 500)
}

/// The inward dip of lobe `i`: a cubic to the sector end, both control
/// points at the sector midpoint on the dip radius.
pub open spec fn spec_lobe_dip(r: i64, i: int) -> Seg {
    Seg::CubicTo {
        c1: spec_polar(spec_scallop_dip(r), 45000 - 36000 * i, 500),
        c2: spec_polar(spec_scallop_dip(r), 45000 - 36000 * i, 500),
        p: spec_polar(spec_inner_rim(r), 39600 - 36000 * i, 500),
    }
}

/// The return of lobe `i` across the bottom gap: a cubic back to the rim,
/// its control points bulging outward at 67 and 34 hundredths of the gap
/// before the landing angle.
pub open spec fn spec_lobe_return(r: i64, i: int) -> Seg {
    Seg::CubicTo {
        c1: spec_polar(spec_scallop_bulge(r), 31284 - 36000 * i, 500),
        c2: spec_polar(spec_scallop_bulge(r), 22968 - 36000 * i, 500),
        p: spec_polar(spec_inner_rim(r), 14400 - 36000 * i, 500),
    }
}

/// Segment `k` of the scalloped contour, by the same three-per-lobe layout
/// as the outer contour.
pub open spec fn spec_scallop_seg(r: i64, k: int) -> Seg {
    if (k + 1) % 3 == 0 {
        Seg::LineTo { p: spec_lobe_start(r, (k + 1) / 3) }
    } else if (k + 1) % 3 == 1 {
        spec_lobe_dip(r, (k + 1) / 3)
    } else {
        spec_lobe_return(r, (k + 1) / 3)
    }
}

/// The inner scalloped contour: five lobes, fourteen segments.
pub open spec fn spec_scallop_contour(r: i64) -> ContourModel {
    ContourModel {
        start: spec_lobe_start(r, 0),
        segs: Seq::new(14, |k: int| spec_scallop_seg(r, k)),
    }
}

/// The center of rosette `i`, on the circle of rosette centers at the same
/// falling angles as the scallop lobes.
pub open spec fn spec_rosette_center(r: i64, i: int) -> Point {
    spec_polar(spec_bolt_center_radius(r), 90 - 72 * i, 1)
}

/// A point of rosette `i` on the bolt radius, at `a` whole degrees.
pub open spec fn spec_rosette_rim_point(r: i64, i: int, a: int) -> Point {
    Point::OnCircle {
        center: Box::new(spec_rosette_center(r, i)),
        radius: spec_bolt_radius(r),
        degrees: Frac { num: a as i64, den: 1 },
    }
}

/// A control point of rosette `i` on the control radius, at `a` whole
/// degrees.
pub open spec fn spec_rosette_ctrl_point(r: i64, i: int, a: int) -> Point {
    Point::OnCircle {
        center: Box::new(spec_rosette_center(r, i)),
        radius: spec_bolt_control_radius(r),
        degrees: Frac { num: a as i64, den: 1 },
    }
}

/// Quarter `j` of rosette `i` (for `j` in `1..=4`): a cubic stepping 90
/// degrees clockwise, its control points leading the landing angle by 60
/// and 30 degrees.
pub open spec fn spec_rosette_seg(r: i64, i: int, j: int) -> Seg {
    Seg::CubicTo {
        c1: spec_rosette_ctrl_point(r, i, 90 - 72 * i - 90 * j + 60),
        c2: spec_rosette_ctrl_point(r, i, 90 - 72 * i - 90 * j + 30),
        p: spec_rosette_rim_point(r, i, 90 - 72 * i - 90 * j),
    }
}

/// Rosette `i`: a closed rounded square of four cubic segments.
pub open spec fn spec_rosette_contour(r: i64, i: int) -> ContourModel {
    ContourModel {
        start: spec_rosette_rim_point(r, i, 90 - 72 * i),
        segs: Seq::new(4, |j: int| spec_rosette_seg(r, i, j + 1)),
    }
}

/// The whole chain-ring path: the outer teeth, the scallop, and the five
/// rosettes, in that order.
pub open spec fn spec_chain_ring_path(r: i64, t: i64) -> PathModel {
    PathModel {
        contours: seq![spec_outer_contour(r, t), spec_scallop_contour(r)] + Seq::new(
            5,
            |i: int| spec_rosette_contour(r, i),
        ),
    }
}

/// The ring's fill gradient: steel to rust over the ridge radius, its
/// center dropped by `4/100` of the ridge radius, with explicit stops at
/// `[8/10, 1]` so the rust shading hugs the outer edge.
pub open spec fn spec_ring_gradient(r: i64) -> Gradient {
    Gradient {
        center: Point::At { x: Frac { num: 0, den: 1 }, y: Frac { num: (34 * r) as i64, den: 1000 } },
        rx: spec_ridge(r),
        ry: spec_ridge(r),
        inner: STEEL_COLOR,
        outer: RUST_COLOR,
        stops: Some((Frac { num: 8, den: 10 }, Frac { num: 1, den: 1 })),
    }
}

/// The ridge gradient: dark brown at the top of the ridge circle down to
/// copper, over twice the ridge radius.
pub open spec fn spec_ridge_gradient(r: i64) -> Gradient {
    Gradient {
        center: Point::At { x: Frac { num: 0, den: 1 }, y: Frac { num: (-85 * r) as i64, den: 100 } },
        rx: spec_scaled(170, r, 100),
        ry: spec_scaled(170, r, 100),
        inner: DARK_BROWN_COLOR,
        outer: COPPER_COLOR,
        stops: None,
    }
}

/// The three draw calls of the chain ring: the path filled with the ring
/// gradient and stroked dark brown, both under the rotated frame, then the
/// unrotated ridge circle.
pub open spec fn spec_chain_ring_cmds(center: (i64, i64), r: i64, rotation: Frac, t: i64, canvas_width: i64) -> Seq<DrawCmdModel> {
    seq![
        DrawCmdModel {
            transform: Transform { tx: center.0, ty: center.1, rot: rotation },
            shape: ShapeModel::PathShape { path: spec_chain_ring_path(r, t) },
            paint: Paint {
                style: Style::Fill,
                anti_alias: true,
                stroke_width: spec_pen_width(canvas_width as int),
                join: StrokeJoin::Miter,
                source: FillSource::Radial { gradient: spec_ring_gradient(r) },
            },
        },
        DrawCmdModel {
            transform: Transform { tx: center.0, ty: center.1, rot: rotation },
            shape: ShapeModel::PathShape { path: spec_chain_ring_path(r, t) },
            paint: Paint {
                style: Style::Stroke,
                anti_alias: true,
                stroke_width: spec_pen_width(canvas_width as int),
                join: StrokeJoin::Miter,
                source: FillSource::Color { argb: DARK_BROWN_COLOR },
            },
        },
        DrawCmdModel {
            transform: Transform { tx: center.0, ty: center.1, rot: Frac { num: 0, den: 1 } },
            shape: ShapeModel::Circle { center: spec_origin(), radius: spec_ridge(r) },
            paint: Paint {
                style: Style::Fill,
                anti_alias: true,
                stroke_width: spec_pen_width(canvas_width as int),
                join: StrokeJoin::Miter,
                source: FillSource::Radial { gradient: spec_ridge_gradient(r) },
            },
        },
    ]
}

/// A point at `radius` and `deg_num / deg_den` degrees around the origin.
fn polar(radius: Len, deg_num: i64, deg_den: i64) -> (p: Point)
    requires
        deg_den > 0,
    ensures
        p == spec_polar(radius, deg_num as int, deg_den),
{
    point_in_circle(Point::at(Frac::whole(0), Frac::whole(0)), radius, Frac::new(deg_num, deg_den))
}

/// Build the chain-ring path for an outer radius and a tooth count.
pub fn chain_ring_path(radius: i64, teeth_count: i64) -> (path: Path)
    requires
        0 <= radius <= 1_000_000,
        1 <= teeth_count <= 10_000,
    ensures
        path@ == spec_chain_ring_path(radius, teeth_count),
{
    let r = radius;
    let t = teeth_count;
    let rim = Len::rational(Frac::new(88 * r, 100));
    let bulge = Len::rational(Frac::new(1035 * r, 1000));

    // Outer contour: the gear teeth.
    let start = polar(rim, 450 * t - 720, 5 * t);
    let mut segs: Vec<Seg> = Vec::new();
    let mut i: i64 = 0;
    while i < t
        invariant
            0 <= i <= t,
            1 <= t <= 10_000,
            0 <= r <= 1_000_000,
            rim == spec_tooth_rim(r),
            bulge == spec_tooth_bulge(r),
            segs@ =~= Seq::new((3 * t - 1) as nat, |k: int| spec_outer_seg(r, t, k)).take(
                if i == 0 {
                    0
                } else {
                    3 * i - 1
                },
            ),
        decreases t - i,
    {
        if i > 0 {
            segs.push(Seg::LineTo { p: polar(rim, 450 * t - 720 + 1800 * i, 5 * t) });
        }
        segs.push(
            Seg::CubicTo {
                c1: polar(bulge, 450 * t + 1800 * i, 5 * t),
                c2: polar(bulge, 450 * t + 1800 * i, 5 * t),
                p: polar(rim, 450 * t + 720 + 1800 * i, 5 * t),
            },
        );
        segs.push(Seg::LineTo { p: polar(rim, 450 * t + 1080 + 1800 * i, 5 * t) });
        proof {
            assert(segs@ =~= Seq::new((3 * t - 1) as nat, |k: int| spec_outer_seg(r, t, k)).take(
                3 * (i + 1) - 1));
        }
        i = i + 1;
    }
    let outer = Contour { start, segs };
    proof {
        assert(outer@ =~~= spec_outer_contour(r, t));
    }

    // Inner scalloped contour: five lobes, wound the opposite way.
    let inner = Len::rational(Frac::new(73 * r, 100));
    let dip = Len::rational(Frac::new(5704 * r, 10000));
    let sbulge = Len::rational(Frac::new(7665 * r, 10000));
    let start2 = polar(inner, 50400, 500);
    let mut segs2: Vec<Seg> = Vec::new();
    let mut i2: i64 = 0;
    while i2 < 5
        invariant
            0 <= i2 <= 5,
            0 <= r <= 1_000_000,
            inner == spec_inner_rim(r),
            dip == spec_scallop_dip(r),
            sbulge == spec_scallop_bulge(r),
            segs2@ =~= Seq::new(14, |k: int| spec_scallop_seg(r, k)).take(
                if i2 == 0 {
                    0
                } else {
                    3 * i2 - 1
                },
            ),
        decreases 5 - i2,
    {
        if i2 > 0 {
            segs2.push(Seg::LineTo { p: polar(inner, 50400 - 36000 * i2, 500) });
        }
        segs2.push(
            Seg::CubicTo {
                c1: polar(dip, 45000 - 36000 * i2, 500),
                c2: polar(dip, 45000 - 36000 * i2, 500),
                p: polar(inner, 39600 - 36000 * i2, 500),
            },
        );
        segs2.push(
            Seg::CubicTo {
                c1: polar(sbulge, 31284 - 36000 * i2, 500),
                c2: polar(sbulge, 22968 - 36000 * i2, 500),
                p: polar(inner, 14400 - 36000 * i2, 500),
            },
        );
        proof {
            assert(segs2@ =~= Seq::new(14, |k: int| spec_scallop_seg(r, k)).take(3 * (i2 + 1) - 1));
        }
        i2 = i2 + 1;
    }
    let scallop = Contour { start: start2, segs: segs2 };
    proof {
        assert(scallop@ =~~= spec_scallop_contour(r));
    }

    let mut contours: Vec<Contour> = Vec::new();
    contours.push(outer);
    contours.push(scallop);

    // Five bolt-hole rosettes.
    let bolt = Len::over_pi(Frac::new(17739 * r, 100000));
    let bolt_ctrl = Len::over_pi(Frac::new(2022246 * r, 10000000));
    let center_radius = Len {
        p: Frac::new(73 * r, 100),
        q: Frac::new(585387 * r, 10000000),
        t: Frac::whole(0),
    };
    let mut i3: i64 = 0;
    while i3 < 5
        invariant
            0 <= i3 <= 5,
            0 <= r <= 1_000_000,
            1 <= t <= 10_000,
            bolt == spec_bolt_radius(r),
            bolt_ctrl == spec_bolt_control_radius(r),
            center_radius == spec_bolt_center_radius(r),
            contours@.map(|n: int, c: Contour| c@) =~~= seq![
                spec_outer_contour(r, t),
                spec_scallop_contour(r),
            ] + Seq::new(5, |n: int| spec_rosette_contour(r, n)).take(i3 as int),
        decreases 5 - i3,
    {
        let rc = polar(center_radius, 90 - 72 * i3, 1);
        let start3 = point_in_circle(rc.duplicate(), bolt, Frac::new(90 - 72 * i3, 1));
        let mut segs3: Vec<Seg> = Vec::new();
        let mut j: i64 = 1;
        while j <= 4
            invariant
                1 <= j <= 5,
                0 <= i3 <= 5,
                0 <= r <= 1_000_000,
                bolt == spec_bolt_radius(r),
                bolt_ctrl == spec_bolt_control_radius(r),
                rc == spec_rosette_center(r, i3 as int),
                segs3@ =~= Seq::new(4, |n: int| spec_rosette_seg(r, i3 as int, n + 1)).take(
                    j - 1),
            decreases 5 - j,
        {
            segs3.push(
                Seg::CubicTo {
                    c1: point_in_circle(rc.duplicate(), bolt_ctrl, Frac::new(90 - 72 * i3 - 90 * j + 60, 1)),
                    c2: point_in_circle(rc.duplicate(), bolt_ctrl, Frac::new(90 - 72 * i3 - 90 * j + 30, 1)),
                    p: point_in_circle(rc.duplicate(), bolt, Frac::new(90 - 72 * i3 - 90 * j, 1)),
                },
            );
            proof {
                assert(segs3@ =~= Seq::new(4, |n: int| spec_rosette_seg(r, i3 as int, n + 1)).take(
                    j as int));
            }
            j = j + 1;
        }
        let rosette = Contour { start: start3, segs: segs3 };
        proof {
            assert(rosette@ =~~= spec_rosette_contour(r, i3 as int));
        }
        let ghost pre = contours@;
        contours.push(rosette);
        proof {
            let f = |n: int, c: Contour| c@;
            assert(contours@.map(f) =~= pre.map(f).push(rosette@));
            assert(contours@.map(f) =~~= seq![
                spec_outer_contour(r, t),
                spec_scallop_contour(r),
            ] + Seq::new(5, |n: int| spec_rosette_contour(r, n)).take(i3 + 1));
        }
        i3 = i3 + 1;
    }
    let path = Path { contours };
    proof {
        assert(path@ =~~= spec_chain_ring_path(r, t));
    }
    path
}

/// Draw the chain ring: the toothed path filled with the steel-to-rust
/// gradient and stroked dark brown under a frame translated to `center`
/// and rotated by `rotation` degrees, then the unrotated ridge circle,
/// shaded dark brown to copper.
///
/// The size bounds keep every exact numerator within `i64`.
pub fn chain_ring(center: (i64, i64), radius: i64, rotation: Frac, teeth_count: i64, canvas_width: i64) -> (cmds: Vec<DrawCmd>)
    requires
        rotation.wf(),
        0 <= radius <= 1_000_000,
        1 <= teeth_count <= 10_000,
        1 <= canvas_width <= 1_000_000,
    ensures
        scene_model(cmds@) == spec_chain_ring_cmds(center, radius, rotation, teeth_count, canvas_width),
{
    let (cx, cy) = center;
    let width = pen_width(canvas_width);
    let fill_path = chain_ring_path(radius, teeth_count);
    let stroke_path = chain_ring_path(radius, teeth_count);

    let ring_gradient = Gradient {
        center: Point::at(Frac::whole(0), Frac::new(34 * radius, 1000)),
        rx: Len::rational(Frac::new(85 * radius, 100)),
        ry: Len::rational(Frac::new(85 * radius, 100)),
        inner: STEEL_COLOR,
        outer: RUST_COLOR,
        stops: Some((Frac::new(8, 10), Frac::whole(1))),
    };
    let ridge_gradient = Gradient {
        center: Point::at(Frac::whole(0), Frac::new(-(85 * radius), 100)),
        rx: Len::rational(Frac::new(170 * radius, 100)),
        ry: Len::rational(Frac::new(170 * radius, 100)),
        inner: DARK_BROWN_COLOR,
        outer: COPPER_COLOR,
        stops: None,
    };

    let mut cmds: Vec<DrawCmd> = Vec::new();
    cmds.push(
        DrawCmd {
            transform: Transform { tx: cx, ty: cy, rot: rotation },
            shape: Shape::PathShape { path: fill_path },
            paint: Paint {
                style: Style::Fill,
                anti_alias: true,
                stroke_width: width,
                join: StrokeJoin::Miter,
                source: FillSource::Radial { gradient: ring_gradient },
            },
        },
    );
    cmds.push(
        DrawCmd {
            transform: Transform { tx: cx, ty: cy, rot: rotation },
            shape: Shape::PathShape { path: stroke_path },
            paint: Paint {
                style: Style::Stroke,
                anti_alias: true,
                stroke_width: width,
                join: StrokeJoin::Miter,
                source: FillSource::Color { argb: DARK_BROWN_COLOR },
            },
        },
    );
    cmds.push(
        DrawCmd {
            transform: Transform { tx: cx, ty: cy, rot: Frac::whole(0) },
            shape: Shape::Circle {
                center: Point::at(Frac::whole(0), Frac::whole(0)),
                radius: Len::rational(Frac::new(85 * radius, 100)),
            },
            paint: Paint {
                style: Style::Fill,
                anti_alias: true,
                stroke_width: width,
                join: StrokeJoin::Miter,
                source: FillSource::Radial { gradient: ridge_gradient },
            },
        },
    );
    proof {
        assert(scene_model(cmds@) =~~= spec_chain_ring_cmds(
            center,
            radius,
            rotation,
            teeth_count,
            canvas_width,
        ));
    }
    cmds
}

/// Contour structure of the chain-ring path: one outer contour of exactly
/// `t` repeating tooth units (a cubic tip and a gap line, the units joined
/// by foot lines), one closed scalloped contour of exactly five lobes, and
/// exactly five rosettes of four cubic segments each. Every contour is
/// closed by construction.
pub proof fn lemma_chain_ring_structure(r: i64, t: i64)
    requires
        1 <= t <= 10_000,
    ensures
        spec_chain_ring_path(r, t).contours.len() == 7,
        spec_chain_ring_path(r, t).contours[0].segs.len() == 3 * t - 1,
        forall|k: int|
            0 <= k < 3 * t - 1 ==> ((spec_chain_ring_path(r, t).contours[0].segs[k] is CubicTo)
                <==> (k + 1) % 3 == 1),
        spec_chain_ring_path(r, t).contours[1].segs.len() == 14,
        forall|k: int|
            0 <= k < 14 ==> ((spec_chain_ring_path(r, t).contours[1].segs[k] is CubicTo) <==> (k
                + 1) % 3 != 0),
        forall|i: int|
            2 <= i < 7 ==> spec_chain_ring_path(r, t).contours[i].segs.len() == 4,
        forall|i: int, j: int|
            2 <= i < 7 && 0 <= j < 4 ==> spec_chain_ring_path(r, t).contours[i].segs[j] is CubicTo,
{
}

} // verus!
