//! A procedural vector-graphics engine for an animated bicycle-chainring
//! logo: a toothed ring with scalloped spokes and bolt rosettes, rotating
//! under six gradient-shaded "piston" triangles and two translucent outline
//! triangles.
//!
//! Every frame is described exactly. Angles are rational numbers of degrees
//! and lengths are rational combinations of the basis `{1, 1/pi, 1/sqrt(3)}`,
//! so the geometry of a frame is a plain value with no rounding in it. A host
//! program evaluates the scene numerically and rasterizes it; this crate only
//! computes what must be drawn, in which order, and with which paint.

pub mod frame;
pub mod geom;
pub mod num;
pub mod paint;
pub mod ring;
pub mod scene;
pub mod tri;
