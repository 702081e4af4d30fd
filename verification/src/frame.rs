//! The frame composer: one whole frame of the animation.
//!
//! A frame is a fixed sequence of eleven draw calls: the chain ring (its
//! fill, its stroke and its ridge circle), three rounded vertex-mode
//! triangles in green, blue and red, three straight vertex-mode triangles
//! in yellow, cyan and magenta, and two translucent dark-gray outline
//! triangles, rounded then straight. The order is part of the contract:
//! later calls paint over earlier ones.
//!
//! The rotation advances by `12 * bpm / (60 * fps)` degrees per frame, so
//! the animation repeats after `round(360 / step)` frames; the composer
//! returns how many frames of the current cycle remain.

use crate::num::Frac;
use crate::ring::chain_ring;
use crate::ring::spec_chain_ring_cmds;
use crate::scene::scene_model;
use crate::scene::DrawCmd;
use crate::scene::DrawCmdModel;
use crate::tri::spec_triangle_cmd;
use crate::tri::triangle;
use vstd::arithmetic::div_mod::lemma_fundamental_div_mod;
use vstd::arithmetic::div_mod::lemma_mod_add_multiples_vanish;
use vstd::arithmetic::div_mod::lemma_mod_bound;
use vstd::prelude::*;

verus! {

/// Opaque green, the first rounded vertex triangle.
pub const GREEN_COLOR: u32 = 0xff00_ff00;

/// Opaque blue, the second rounded vertex triangle.
pub const BLUE_COLOR: u32 = 0xff00_00ff;

/// Opaque red, the third rounded vertex triangle.
pub const RED_COLOR: u32 = 0xffff_0000;

/// Opaque yellow, the first straight vertex triangle.
pub const YELLOW_COLOR: u32 = 0xffff_ff00;

/// Opaque cyan, the second straight vertex triangle.
pub const CYAN_COLOR: u32 = 0xff00_ffff;

/// Opaque magenta, the third straight vertex triangle.
pub const MAGENTA_COLOR: u32 = 0xffff_00ff;

/// Translucent dark gray, both overlay outline triangles.
pub const OVERLAY_COLOR: u32 = 0x7722_2222;

/// The number of teeth of the chain ring.
pub const TEETH_COUNT: i64 = 32;

/// The number of frames after which the animation repeats:
/// `round(360 / step)` for a step of `12 * bpm / (60 * fps)` degrees per
/// frame, which comes to `round(1800 * fps / bpm)`.
pub open spec fn spec_cycle_len(fps: u64, bpm: u64) -> int {
    (3600 * fps + bpm) / (2 * bpm)
}

/// How many frames of the cycle remain after drawing frame `frame`.
pub open spec fn spec_frames_remaining(frame: u64, fps: u64, bpm: u64) -> int {
    spec_cycle_len(fps, bpm) - 1 - (frame as int % spec_cycle_len(fps, bpm))
}

/// The ring's rotation at a frame: the frame index, reduced modulo the
/// cycle length, times the step of `12 * bpm / (60 * fps)` degrees.
pub open spec fn spec_rotation(frame: u64, fps: u64, bpm: u64) -> Frac {
    Frac {
        num: ((frame as int % spec_cycle_len(fps, bpm)) * 12 * bpm) as i64,
        den: (60 * fps) as i64,
    }
}

/// The square working size of a canvas: its smaller pixel dimension.
pub open spec fn spec_size(width: i64, height: i64) -> int {
    if width < height {
        width as int
    } else {
        height as int
    }
}

/// The whole scene of one frame, in paint order: the three chain-ring
/// calls, the six vertex-mode triangles, and the two overlay outlines. The
/// triangles share a rotation sixty degrees past the ring's, so their
/// vertices interleave between the teeth.
pub open spec fn spec_frame_scene(frame: u64, fps: u64, bpm: u64, width: i64, height: i64) -> Seq<
    DrawCmdModel,
> {
    let size = spec_size(width, height);
    let c = ((size / 2) as i64, (size / 2) as i64);
    let ring_radius = (size / 2) as i64;
    let tri_radius = (size / 2 * 53 / 100) as i64;
    let rotation = spec_rotation(frame, fps, bpm);
    let tri_rotation = rotation.plus_int(60);
    spec_chain_ring_cmds(c, ring_radius, rotation, TEETH_COUNT, width) + seq![
        spec_triangle_cmd(c, tri_radius, tri_rotation, Some(0), GREEN_COLOR, true, width),
        spec_triangle_cmd(c, tri_radius, tri_rotation, Some(1), BLUE_COLOR, true, width),
        spec_triangle_cmd(c, tri_radius, tri_rotation, Some(2), RED_COLOR, true, width),
        spec_triangle_cmd(c, tri_radius, tri_rotation, Some(0), YELLOW_COLOR, false, width),
        spec_triangle_cmd(c, tri_radius, tri_rotation, Some(1), CYAN_COLOR, false, width),
        spec_triangle_cmd(c, tri_radius, tri_rotation, Some(2), MAGENTA_COLOR, false, width),
        spec_triangle_cmd(c, tri_radius, tri_rotation, None, OVERLAY_COLOR, true, width),
        spec_triangle_cmd(c, tri_radius, tri_rotation, None, OVERLAY_COLOR, false, width),
    ]
}

/// Compose frame `frame` of the animation for a canvas of the given pixel
/// dimensions, at `fps` frames per second and `bpm` beats per minute.
///
/// Returns the scene — the eleven draw calls, in paint order — and the
/// number of frames remaining until the animation cycle repeats. The same
/// inputs always yield the same scene and the same count: both are pinned
/// to functions of the arguments alone.
///
/// The rates and dimensions must be positive; the upper bounds keep the
/// exact numerators within `i64`, and `bpm <= 3600 * fps` keeps the step
/// within a turn, so a cycle has at least one frame.
pub fn render_frame(frame: u64, fps: u64, bpm: u64, width: i64, height: i64) -> (r: (
    Vec<DrawCmd>,
    u64,
))
    requires
        1 <= fps <= 1_000_000,
        1 <= bpm <= 1_000_000,
        bpm <= 3600 * fps,
        1 <= width <= 1_000_000,
        1 <= height <= 1_000_000,
    ensures
        scene_model(r.0@) == spec_frame_scene(frame, fps, bpm, width, height),
        r.1 as int == spec_frames_remaining(frame, fps, bpm),
{
    let cycle: u64 = (3600 * fps + bpm) / (2 * bpm);
    proof {
        lemma_fundamental_div_mod((3600 * fps + bpm) as int, (2 * bpm) as int);
        lemma_mod_bound((3600 * fps + bpm) as int, (2 * bpm) as int);
        assert(cycle >= 1) by (nonlinear_arith)
            requires
                cycle == spec_cycle_len(fps, bpm),
                bpm <= 3600 * fps,
                1 <= bpm,
        ;
    }
    let m: u64 = frame % cycle;
    proof {
        assert(m * 12 * bpm < 0x40_0000_0000) by (nonlinear_arith)
            requires
                m < cycle,
                cycle * (2 * bpm) <= 3600 * fps + bpm,
                1 <= bpm <= 1_000_000,
                1 <= fps <= 1_000_000,
        ;
    }
    let rotation = Frac::new((m * 12 * bpm) as i64, (60 * fps) as i64);
    proof {
        assert(rotation.small());
    }
    let tri_rotation = rotation.add_int(60);

    let size = if width < height {
        width
    } else {
        height
    };
    let c = (size / 2, size / 2);
    let ring_radius = size / 2;
    let tri_radius = size / 2 * 53 / 100;

    let mut cmds = chain_ring(c, ring_radius, rotation, TEETH_COUNT, width);
    cmds.push(triangle(c, tri_radius, tri_rotation, Some(0), GREEN_COLOR, true, width).unwrap());
    cmds.push(triangle(c, tri_radius, tri_rotation, Some(1), BLUE_COLOR, true, width).unwrap());
    cmds.push(triangle(c, tri_radius, tri_rotation, Some(2), RED_COLOR, true, width).unwrap());
    cmds.push(triangle(c, tri_radius, tri_rotation, Some(0), YELLOW_COLOR, false, width).unwrap());
    cmds.push(triangle(c, tri_radius, tri_rotation, Some(1), CYAN_COLOR, false, width).unwrap());
    cmds.push(triangle(c, tri_radius, tri_rotation, Some(2), MAGENTA_COLOR, false, width).unwrap());
    cmds.push(triangle(c, tri_radius, tri_rotation, None, OVERLAY_COLOR, true, width).unwrap());
    cmds.push(triangle(c, tri_radius, tri_rotation, None, OVERLAY_COLOR, false, width).unwrap());
    proof {
        assert(scene_model(cmds@) =~~= spec_frame_scene(frame, fps, bpm, width, height));
    }
    let remaining: u64 = cycle - 1 - m;
    (cmds, remaining)
}

/// The animation wraps: one whole cycle later, the composed scene and the
/// remaining-frame count are the same.
pub proof fn lemma_frame_periodic(frame: u64, fps: u64, bpm: u64, width: i64, height: i64)
    requires
        1 <= fps <= 1_000_000,
        1 <= bpm <= 1_000_000,
        bpm <= 3600 * fps,
        frame + spec_cycle_len(fps, bpm) <= u64::MAX,
    ensures
        spec_frame_scene((frame + spec_cycle_len(fps, bpm)) as u64, fps, bpm, width, height)
            == spec_frame_scene(frame, fps, bpm, width, height),
        spec_frames_remaining((frame + spec_cycle_len(fps, bpm)) as u64, fps, bpm)
            == spec_frames_remaining(frame, fps, bpm),
{
    let cycle = spec_cycle_len(fps, bpm);
    lemma_fundamental_div_mod((3600 * fps + bpm) as int, (2 * bpm) as int);
    lemma_mod_bound((3600 * fps + bpm) as int, (2 * bpm) as int);
    assert(cycle >= 1) by (nonlinear_arith)
        requires
            cycle == spec_cycle_len(fps, bpm),
            bpm <= 3600 * fps,
            1 <= bpm,
    ;
    lemma_mod_add_multiples_vanish(frame as int, cycle);
    assert((frame + cycle) as u64 as int % cycle == frame as int % cycle);
    assert(spec_rotation((frame + cycle) as u64, fps, bpm) == spec_rotation(frame, fps, bpm));
    assert(spec_frame_scene((frame + cycle) as u64, fps, bpm, width, height)
        =~~= spec_frame_scene(frame, fps, bpm, width, height));
}

} // verus!
