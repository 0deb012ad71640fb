//! The geometric work of one frame: projecting every segment of the edge
//! list through the frame's transform and collecting the draw calls for the
//! drawing surface.  A segment whose projection leaves the representable
//! range is skipped for the frame — never drawn with garbage coordinates,
//! and never aborting the rest of the frame.

use vstd::prelude::*;
use crate::geom::{Point3, Segment, DrawCmd, SCALE};
use crate::transform::{Mat4, GMat, spec_project, gspin, spinning_transform, lemma_spin_fits};

verus! {

/// Width of the canvas, in pixels.
pub const CANVAS_WIDTH: i64 = 1024;

/// Height of the canvas, in pixels.
pub const CANVAS_HEIGHT: i64 = 768;

/// Half the canvas width, in fixed-point units: the x translation that
/// carries the model origin to the canvas center.
pub const CENTER_X_FP: i64 = 512 * SCALE;

/// Half the canvas height, in fixed-point units.
pub const CENTER_Y_FP: i64 = 384 * SCALE;

/// Fixed-point scale factor the spinning-mesh variant applies to the model.
pub const MODEL_SCALE_FP: i64 = 100 * SCALE;

/// The canvas center as a fixed-point translation target.
pub open spec fn spec_canvas_center() -> Point3 {
    Point3 { x: CENTER_X_FP, y: CENTER_Y_FP, z: 0 }
}

/// The canvas center as a fixed-point translation target.
pub fn canvas_center() -> (r: Point3)
    ensures
        r == spec_canvas_center(),
{
    Point3 { x: CENTER_X_FP, y: CENTER_Y_FP, z: 0 }
}

/// The executable matrix holding the entries of `g`; meaningful when every
/// entry of `g` is in the working range.
pub open spec fn mat_of(g: GMat) -> Mat4 {
    Mat4 {
        m00: g.e00 as i64,
        m01: g.e01 as i64,
        m02: g.e02 as i64,
        m03: g.e03 as i64,
        m10: g.e10 as i64,
        m11: g.e11 as i64,
        m12: g.e12 as i64,
        m13: g.e13 as i64,
        m20: g.e20 as i64,
        m21: g.e21 as i64,
        m22: g.e22 as i64,
        m23: g.e23 as i64,
    }
}

/// The draw calls one frame issues for `segs` under the transform `m`:
/// segments whose endpoints both project are drawn in segment order; a
/// segment with an unrepresentable projection is skipped.
pub open spec fn cmds_of(m: Mat4, segs: Seq<Segment>) -> Seq<DrawCmd>
    decreases segs.len(),
{
    if segs.len() == 0 {
        Seq::empty()
    } else {
        cmds_of(m, segs.drop_last()) + (match (
            spec_project(m, segs.last().a),
            spec_project(m, segs.last().b),
        ) {
            (Some(p1), Some(p2)) => seq![DrawCmd { p1, p2 }],
            _ => Seq::empty(),
        })
    }
}

/// Projects every segment through `m` and collects the frame's draw calls,
/// skipping exactly the segments with an unrepresentable projection.
pub fn render_frame(m: &Mat4, segs: &Vec<Segment>) -> (r: Vec<DrawCmd>)
    ensures
        r@ == cmds_of(*m, segs@),
{
    let mut out: Vec<DrawCmd> = Vec::new();
    let mut i: usize = 0;
    while i < segs.len()
        invariant
            i <= segs@.len(),
            out@ == cmds_of(*m, segs@.take(i as int)),
        decreases segs@.len() - i,
    {
        let s = segs[i];
        match (m.project(s.a), m.project(s.b)) {
            (Ok(p1), Ok(p2)) => out.push(DrawCmd { p1, p2 }),
            _ => (),
        }
        proof {
            assert(segs@.take(i as int + 1).drop_last() =~= segs@.take(i as int));
            assert(segs@.take(i as int + 1).last() == segs@[i as int]);
        }
        i += 1;
    }
    proof {
        assert(segs@.take(segs@.len() as int) =~= segs@);
    }
    out
}

/// Frames draw segment by segment: the draw calls of a concatenation are
/// the draw calls of the parts, in order.
pub proof fn lemma_cmds_of_concat(m: Mat4, s1: Seq<Segment>, s2: Seq<Segment>)
    ensures
        cmds_of(m, s1 + s2) == cmds_of(m, s1) + cmds_of(m, s2),
    decreases s2.len(),
{
    if s2.len() == 0 {
        assert(s1 + s2 =~= s1);
        assert(cmds_of(m, s1) + cmds_of(m, s2) =~= cmds_of(m, s1));
    } else {
        lemma_cmds_of_concat(m, s1, s2.drop_last());
        assert((s1 + s2).drop_last() =~= s1 + s2.drop_last());
        assert((s1 + s2).last() == s2.last());
        assert(cmds_of(m, s1 + s2) =~= cmds_of(m, s1) + cmds_of(m, s2));
    }
}

/// A segment one of whose endpoints fails to project is skipped and skipped
/// alone: the frame's other draw calls are exactly those of the list without
/// it, so one bad projection never aborts the frame.
pub proof fn lemma_skip_segment(m: Mat4, before: Seq<Segment>, bad: Segment, after: Seq<Segment>)
    requires
        spec_project(m, bad.a) is None || spec_project(m, bad.b) is None,
    ensures
        cmds_of(m, before + seq![bad] + after) == cmds_of(m, before + after),
{
    lemma_cmds_of_concat(m, before, seq![bad]);
    assert(seq![bad].len() == 1);
    assert(seq![bad].last() == bad);
    assert(seq![bad].drop_last() =~= Seq::<Segment>::empty());
    assert(cmds_of(m, Seq::<Segment>::empty()) =~= Seq::<DrawCmd>::empty());
    assert(cmds_of(m, seq![bad]) =~= Seq::<DrawCmd>::empty());
    lemma_cmds_of_concat(m, before + seq![bad], after);
    lemma_cmds_of_concat(m, before, after);
    assert(cmds_of(m, before) + cmds_of(m, seq![bad]) =~= cmds_of(m, before));
}

/// The transform of the spinning-mesh variant for one frame, built from the
/// fixed-point cosine and sine of the spin angle: scale by 100, flip 180
/// degrees about z, spin about y, then translate to the canvas center.
pub open spec fn spec_spin_matrix(cy: int, sy: int) -> GMat {
    gspin(cy, sy, -(SCALE as int), 0, MODEL_SCALE_FP as int, spec_canvas_center())
}

/// Performs the geometric work of one frame of the spinning-mesh variant:
/// composes `Translate(center) * RotY(spin) * RotZ(180 deg) * Scale(100)`
/// and projects every edge, skipping exactly the segments that do not
/// project.  `cy` and `sy` are the fixed-point cosine and sine of the
/// current spin angle; for genuine cosines and sines the composition always
/// succeeds.
pub fn render(segs: &Vec<Segment>, cy: i64, sy: i64) -> (r: Vec<DrawCmd>)
    requires
        -SCALE <= cy <= SCALE,
        -SCALE <= sy <= SCALE,
    ensures
        r@ == cmds_of(mat_of(spec_spin_matrix(cy as int, sy as int)), segs@),
{
    let center = canvas_center();
    proof {
        lemma_spin_fits(
            cy as int,
            sy as int,
            -(SCALE as int),
            0,
            MODEL_SCALE_FP as int,
            center,
        );
    }
    match spinning_transform(cy, sy, -SCALE, 0, MODEL_SCALE_FP, center) {
        Some(m) => {
            proof {
                assert(m == mat_of(spec_spin_matrix(cy as int, sy as int)));
            }
            render_frame(&m, segs)
        },
        None => {
            proof {
                assert(false);
            }
            Vec::new()
        },
    }
}

} // verus!
