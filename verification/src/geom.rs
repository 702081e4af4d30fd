//! Symbolic geometry: points, path segments, contours and paths.
//!
//! A point is either an absolute pair of rational coordinates or a point on
//! a circle, given by its center, an exact radius and an exact angle in
//! degrees. The screen convention is clockwise-positive: a point on a circle
//! evaluates to `(cx + r * cos(a), cy - r * sin(a))`, so `y` decreases as the
//! angle grows from zero.

use crate::num::Frac;
use crate::num::Len;
use vstd::prelude::*;

verus! {

/// An exact point of the plane.
#[derive(PartialEq, Eq, Debug)]
pub enum Point {
    /// An absolute position, `(x, y)`.
    At { x: Frac, y: Frac },
    /// The point at `radius` and `degrees` from `center`, under the
    /// clockwise-positive screen convention:
    /// `(cx + radius * cos(degrees), cy - radius * sin(degrees))`.
    OnCircle { center: Box<Point>, radius: Len, degrees: Frac },
}

impl Point {
    /// Well-formedness: every scalar in the point is well-formed.
    pub open spec fn wf(self) -> bool
        decreases self,
    {
        match self {
            Point::At { x, y } => x.wf() && y.wf(),
            Point::OnCircle { center, radius, degrees } => center.wf() && radius.wf()
                && degrees.wf(),
        }
    }

    /// `self` and `other` denote the same point of the plane: equal
    /// coordinates, or the same center and radius with congruent angles.
    pub open spec fn equiv(self, other: Point) -> bool
        decreases self,
    {
        match (self, other) {
            (Point::At { x, y }, Point::At { x: x2, y: y2 }) => x.same(x2) && y.same(y2),
            (
                Point::OnCircle { center, radius, degrees },
                Point::OnCircle { center: c2, radius: r2, degrees: d2 },
            ) => center.equiv(*c2) && radius.same(r2) && degrees.congruent(d2),
            _ => false,
        }
    }

    /// The absolute point `(x, y)`.
    pub fn at(x: Frac, y: Frac) -> (r: Point)
        ensures
            r == (Point::At { x, y }),
    {
        Point::At { x, y }
    }

    /// An exact structural copy of the point.
    pub fn duplicate(&self) -> (r: Point)
        ensures
            r == *self,
        decreases *self,
    {
        match self {
            Point::At { x, y } => Point::At { x: *x, y: *y },
            Point::OnCircle { center, radius, degrees } => Point::OnCircle {
                center: Box::new(center.duplicate()),
                radius: *radius,
                degrees: *degrees,
            },
        }
    }
}

/// The point at `radius` and `degrees` from `center`, clockwise-positive in
/// screen space: `(cx + radius * cos(degrees), cy - radius * sin(degrees))`.
pub fn point_in_circle(center: Point, radius: Len, degrees: Frac) -> (r: Point)
    ensures
        r == (Point::OnCircle { center: Box::new(center), radius, degrees }),
{
    Point::OnCircle { center: Box::new(center), radius, degrees }
}

/// A point on a circle is unchanged by a full turn of its angle: placing it
/// at `degrees + 360` denotes the same point of the plane as `degrees`.
pub proof fn lemma_point_in_circle_full_turn(center: Point, radius: Len, degrees: Frac)
    requires
        center.wf(),
        radius.wf(),
        degrees.wf(),
        degrees.small(),
    ensures
        (Point::OnCircle {
            center: Box::new(center),
            radius,
            degrees: degrees.plus_int(360),
        }).equiv(Point::OnCircle { center: Box::new(center), radius, degrees }),
    decreases center,
{
    crate::num::lemma_full_turn_congruent(degrees);
    lemma_point_equiv_refl(center);
}

/// Point equivalence is reflexive on well-formed points.
pub proof fn lemma_point_equiv_refl(p: Point)
    requires
        p.wf(),
    ensures
        p.equiv(p),
    decreases p,
{
    match p {
        Point::At { .. } => {},
        Point::OnCircle { center, radius, degrees } => {
            lemma_point_equiv_refl(*center);
            let m = 360 * degrees.den * degrees.den;
            assert(m > 0) by (nonlinear_arith)
                requires
                    degrees.den > 0,
                    m == 360 * degrees.den * degrees.den,
            ;
            vstd::arithmetic::div_mod::lemma_small_mod(0, m as nat);
        },
    }
}

/// One segment of a contour, continuing from the previous end point.
#[derive(PartialEq, Eq, Debug)]
pub enum Seg {
    /// A straight line to `p`.
    LineTo { p: Point },
    /// A cubic Bezier to `p`, with control points `c1` and `c2`.
    CubicTo { c1: Point, c2: Point, p: Point },
}

/// A closed contour: a starting point, a run of segments, and an implicit
/// closing line back to the start. Every contour of the drawing is closed;
/// open contours do not occur.
#[derive(PartialEq, Eq, Debug)]
pub struct Contour {
    pub start: Point,
    pub segs: Vec<Seg>,
}

/// A path: an ordered sequence of closed contours, filled with the non-zero
/// winding rule when the paint style is a fill.
#[derive(PartialEq, Eq, Debug)]
pub struct Path {
    pub contours: Vec<Contour>,
}

/// The mathematical value of a contour: its start and the sequence of its
/// segments.
#[verifier::ext_equal]
pub struct ContourModel {
    pub start: Point,
    pub segs: Seq<Seg>,
}

impl View for Contour {
    type V = ContourModel;

    open spec fn view(&self) -> ContourModel {
        ContourModel { start: self.start, segs: self.segs@ }
    }
}

/// The mathematical value of a path: the sequence of its contours.
#[verifier::ext_equal]
pub struct PathModel {
    pub contours: Seq<ContourModel>,
}

impl View for Path {
    type V = PathModel;

    open spec fn view(&self) -> PathModel {
        PathModel { contours: self.contours@.map(|i: int, c: Contour| c@) }
    }
}

} // verus!
