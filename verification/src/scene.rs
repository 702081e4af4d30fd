//! Draw commands: the unit a composed frame hands to the host.
//!
//! A command is an immutable triple of a coordinate transform, a shape and a
//! paint. Commands are rasterized in sequence order; a later command paints
//! over an earlier one.

use crate::geom::Path;
use crate::geom::PathModel;
use crate::geom::Point;
use crate::num::Frac;
use crate::num::Len;
use crate::paint::Paint;
use vstd::prelude::*;

verus! {

/// The coordinate frame of one draw: translate by `(tx, ty)` pixels, then
/// rotate by `rot` degrees (clockwise in screen space) about the new origin.
#[derive(PartialEq, Eq, Debug)]
pub struct Transform {
    pub tx: i64,
    pub ty: i64,
    pub rot: Frac,
}

/// A drawable shape.
#[derive(PartialEq, Eq, Debug)]
pub enum Shape {
    /// A multi-contour path.
    PathShape { path: Path },
    /// A full circle around `center`.
    Circle { center: Point, radius: Len },
}

/// The mathematical value of a shape.
#[verifier::ext_equal]
pub enum ShapeModel {
    PathShape { path: PathModel },
    Circle { center: Point, radius: Len },
}

impl View for Shape {
    type V = ShapeModel;

    open spec fn view(&self) -> ShapeModel {
        match self {
            Shape::PathShape { path } => ShapeModel::PathShape { path: path@ },
            Shape::Circle { center, radius } => ShapeModel::Circle {
                center: *center,
                radius: *radius,
            },
        }
    }
}

/// One draw call: a shape painted under a transform.
#[derive(PartialEq, Eq, Debug)]
pub struct DrawCmd {
    pub transform: Transform,
    pub shape: Shape,
    pub paint: Paint,
}

/// The mathematical value of a draw call.
#[verifier::ext_equal]
pub struct DrawCmdModel {
    pub transform: Transform,
    pub shape: ShapeModel,
    pub paint: Paint,
}

impl View for DrawCmd {
    type V = DrawCmdModel;

    open spec fn view(&self) -> DrawCmdModel {
        DrawCmdModel { transform: self.transform, shape: self.shape@, paint: self.paint }
    }
}

/// The mathematical value of a scene: its draw calls, in paint order.
pub open spec fn scene_model(cmds: Seq<DrawCmd>) -> Seq<DrawCmdModel> {
    cmds.map(|i: int, c: DrawCmd| c@)
}

} // verus!
