//! Paint: radial gradients and immutable paint values.
//!
//! Colors are packed `0xAARRGGBB` words. A paint carries exactly one fill
//! source — a solid color or a radial gradient — so the invariant that at
//! most one shading source is active at a draw holds by construction.

use crate::geom::Point;
use crate::num::Frac;
use crate::num::Len;
use vstd::prelude::*;

verus! {

/// A radial gradient with two color stops and clamp-to-edge tiling.
///
/// The shader is a circle of radius `rx` around the origin, colored `inner`
/// at the center and `outer` at the rim, carried into place by the transform
/// that scales the axes by `(1, ry / rx)` and then translates by `center`.
/// With `rx == ry` the gradient is circular; otherwise it is an ellipse
/// whose vertical radius is `ry`. The stops sit at `[0, 1]` unless an
/// explicit pair is given.
#[derive(PartialEq, Eq, Debug)]
pub struct Gradient {
    pub center: Point,
    pub rx: Len,
    pub ry: Len,
    pub inner: u32,
    pub outer: u32,
    pub stops: Option<(Frac, Frac)>,
}

impl Gradient {
    /// The placing transform scales the vertical axis by `ry / rx`; it is
    /// the identity scale exactly when the two radii denote the same length.
    pub open spec fn unit_scale(self) -> bool {
        self.rx.same(self.ry)
    }
}

/// Build the radial-gradient descriptor for a center offset, an `(rx, ry)`
/// radius pair and an `(inner, outer)` color pair, with implicit stops
/// `[0, 1]` and clamp tiling.
pub fn gradient(center: Point, radii: (Len, Len), colors: (u32, u32)) -> (g: Gradient)
    ensures
        g == (Gradient {
            center,
            rx: radii.0,
            ry: radii.1,
            inner: colors.0,
            outer: colors.1,
            stops: None,
        }),
{
    Gradient { center, rx: radii.0, ry: radii.1, inner: colors.0, outer: colors.1, stops: None }
}

/// A gradient built from an equal radius pair is circular: its transform
/// has unit scale on both axes. One built from radii that denote different
/// lengths is elliptical: the vertical scale `ry / rx` is not the unit.
pub proof fn lemma_gradient_scale(center: Point, radii: (Len, Len), colors: (u32, u32))
    ensures
        radii.0.same(radii.1) <==> (Gradient {
            center,
            rx: radii.0,
            ry: radii.1,
            inner: colors.0,
            outer: colors.1,
            stops: None,
        }).unit_scale(),
{
}

/// Whether a paint fills the interior of a path or strokes its outline.
#[derive(PartialEq, Eq, Debug)]
pub enum Style {
    Fill,
    Stroke,
}

/// How stroked segments are joined.
#[derive(PartialEq, Eq, Debug)]
pub enum StrokeJoin {
    Miter,
    Bevel,
}

/// The single active fill source of a paint.
#[derive(PartialEq, Eq, Debug)]
pub enum FillSource {
    Color { argb: u32 },
    Radial { gradient: Gradient },
}

/// An immutable paint value, fully describing how one draw is shaded.
#[derive(PartialEq, Eq, Debug)]
pub struct Paint {
    pub style: Style,
    pub anti_alias: bool,
    pub stroke_width: Frac,
    pub join: StrokeJoin,
    pub source: FillSource,
}

/// The stroke width used for outlines: one pixel, or `width / 360` of the
/// canvas width where that is larger.
pub open spec fn spec_pen_width(canvas_width: int) -> Frac {
    if canvas_width >= 360 {
        Frac { num: canvas_width as i64, den: 360 }
    } else {
        Frac { num: 1, den: 1 }
    }
}

/// Compute the stroke width for a canvas of the given pixel width.
pub fn pen_width(canvas_width: i64) -> (r: Frac)
    requires
        1 <= canvas_width <= 1_000_000,
    ensures
        r == spec_pen_width(canvas_width as int),
        r.wf(),
    {
    if canvas_width >= 360 {
        Frac { num: canvas_width, den: 360 }
    } else {
        Frac { num: 1, den: 1 }
    }
}

} // verus!
