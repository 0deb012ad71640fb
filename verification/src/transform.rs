//! The affine transform of the pipeline: a 4x4 homogeneous matrix over
//! fixed-point entries, composed by matrix multiplication and applied to
//! points, together with the projection of a transformed point to an integer
//! pixel coordinate.
//!
//! The last row of every transform is the constant (0, 0, 0, 1), so only the
//! upper three rows are stored.  `GMat` is the mathematical value of a
//! transform, written over unbounded integers; `Mat4` is the executable
//! matrix whose entries must stay inside the working range.

use vstd::prelude::*;
use crate::geom::{
    Point3, Pixel, RenderError, SCALE, ENTRY_MAX, tdiv, lemma_tdiv_exact, lemma_tdiv_bound,
    lemma_mul_bound,
};

verus! {

/// The mathematical value of an affine transform: the twelve significant
/// entries of a 4x4 homogeneous matrix whose last row is (0, 0, 0, 1).
/// Row-major; `e03`, `e13`, `e23` form the translation column.
pub struct GMat {
    pub e00: int,
    pub e01: int,
    pub e02: int,
    pub e03: int,
    pub e10: int,
    pub e11: int,
    pub e12: int,
    pub e13: int,
    pub e20: int,
    pub e21: int,
    pub e22: int,
    pub e23: int,
}

/// Composition of two affine transforms by matrix multiplication; the result
/// applies `b` first and `a` second.  Each product of two fixed-point entries
/// carries one factor of `SCALE` too many, which the truncating division
/// removes.
pub open spec fn gmul(a: GMat, b: GMat) -> GMat {
    GMat {
        e00: tdiv(a.e00 * b.e00 + a.e01 * b.e10 + a.e02 * b.e20, SCALE as int),
        e01: tdiv(a.e00 * b.e01 + a.e01 * b.e11 + a.e02 * b.e21, SCALE as int),
        e02: tdiv(a.e00 * b.e02 + a.e01 * b.e12 + a.e02 * b.e22, SCALE as int),
        e03: tdiv(a.e00 * b.e03 + a.e01 * b.e13 + a.e02 * b.e23, SCALE as int) + a.e03,
        e10: tdiv(a.e10 * b.e00 + a.e11 * b.e10 + a.e12 * b.e20, SCALE as int),
        e11: tdiv(a.e10 * b.e01 + a.e11 * b.e11 + a.e12 * b.e21, SCALE as int),
        e12: tdiv(a.e10 * b.e02 + a.e11 * b.e12 + a.e12 * b.e22, SCALE as int),
        e13: tdiv(a.e10 * b.e03 + a.e11 * b.e13 + a.e12 * b.e23, SCALE as int) + a.e13,
        e20: tdiv(a.e20 * b.e00 + a.e21 * b.e10 + a.e22 * b.e20, SCALE as int),
        e21: tdiv(a.e20 * b.e01 + a.e21 * b.e11 + a.e22 * b.e21, SCALE as int),
        e22: tdiv(a.e20 * b.e02 + a.e21 * b.e12 + a.e22 * b.e22, SCALE as int),
        e23: tdiv(a.e20 * b.e03 + a.e21 * b.e13 + a.e22 * b.e23, SCALE as int) + a.e23,
    }
}

/// The x coordinate of a transform applied to a point, in fixed-point units.
pub open spec fn gapply_x(m: GMat, p: Point3) -> int {
    tdiv(m.e00 * p.x + m.e01 * p.y + m.e02 * p.z, SCALE as int) + m.e03
}

/// The y coordinate of a transform applied to a point, in fixed-point units.
pub open spec fn gapply_y(m: GMat, p: Point3) -> int {
    tdiv(m.e10 * p.x + m.e11 * p.y + m.e12 * p.z, SCALE as int) + m.e13
}

/// The z coordinate of a transform applied to a point, in fixed-point units.
pub open spec fn gapply_z(m: GMat, p: Point3) -> int {
    tdiv(m.e20 * p.x + m.e21 * p.y + m.e22 * p.z, SCALE as int) + m.e23
}

/// The identity transform.
pub open spec fn gidentity() -> GMat {
    GMat {
        e00: SCALE as int,
        e01: 0,
        e02: 0,
        e03: 0,
        e10: 0,
        e11: SCALE as int,
        e12: 0,
        e13: 0,
        e20: 0,
        e21: 0,
        e22: SCALE as int,
        e23: 0,
    }
}

/// Uniform scaling by the fixed-point factor `f`.
pub open spec fn gscaling(f: int) -> GMat {
    GMat {
        e00: f,
        e01: 0,
        e02: 0,
        e03: 0,
        e10: 0,
        e11: f,
        e12: 0,
        e13: 0,
        e20: 0,
        e21: 0,
        e22: f,
        e23: 0,
    }
}

/// Translation by the fixed-point vector (x, y, z).
pub open spec fn gtranslation(x: int, y: int, z: int) -> GMat {
    GMat {
        e00: SCALE as int,
        e01: 0,
        e02: 0,
        e03: x,
        e10: 0,
        e11: SCALE as int,
        e12: 0,
        e13: y,
        e20: 0,
        e21: 0,
        e22: SCALE as int,
        e23: z,
    }
}

/// Rotation about the y axis, given the fixed-point cosine and sine of the
/// angle: x' = c*x + s*z, y' = y, z' = -s*x + c*z.
pub open spec fn grot_y(c: int, s: int) -> GMat {
    GMat {
        e00: c,
        e01: 0,
        e02: s,
        e03: 0,
        e10: 0,
        e11: SCALE as int,
        e12: 0,
        e13: 0,
        e20: -s,
        e21: 0,
        e22: c,
        e23: 0,
    }
}

/// Rotation about the z axis, given the fixed-point cosine and sine of the
/// angle: x' = c*x - s*y, y' = s*x + c*y, z' = z.
pub open spec fn grot_z(c: int, s: int) -> GMat {
    GMat {
        e00: c,
        e01: -s,
        e02: 0,
        e03: 0,
        e10: s,
        e11: c,
        e12: 0,
        e13: 0,
        e20: 0,
        e21: 0,
        e22: SCALE as int,
        e23: 0,
    }
}

/// All twelve entries fit the working range of an executable matrix.
pub open spec fn gmat_in_range(g: GMat) -> bool {
    &&& -ENTRY_MAX <= g.e00 <= ENTRY_MAX
    &&& -ENTRY_MAX <= g.e01 <= ENTRY_MAX
    &&& -ENTRY_MAX <= g.e02 <= ENTRY_MAX
    &&& -ENTRY_MAX <= g.e03 <= ENTRY_MAX
    &&& -ENTRY_MAX <= g.e10 <= ENTRY_MAX
    &&& -ENTRY_MAX <= g.e11 <= ENTRY_MAX
    &&& -ENTRY_MAX <= g.e12 <= ENTRY_MAX
    &&& -ENTRY_MAX <= g.e13 <= ENTRY_MAX
    &&& -ENTRY_MAX <= g.e20 <= ENTRY_MAX
    &&& -ENTRY_MAX <= g.e21 <= ENTRY_MAX
    &&& -ENTRY_MAX <= g.e22 <= ENTRY_MAX
    &&& -ENTRY_MAX <= g.e23 <= ENTRY_MAX
}

/// The value fits a signed 64-bit integer.
pub open spec fn in_i64(v: int) -> bool {
    i64::MIN <= v <= i64::MAX
}

/// The value fits a signed 32-bit integer.
pub open spec fn in_i32(v: int) -> bool {
    i32::MIN <= v <= i32::MAX
}

/// All three coordinates of the transformed point fit a 64-bit integer.
pub open spec fn apply_fits(m: GMat, p: Point3) -> bool {
    &&& in_i64(gapply_x(m, p))
    &&& in_i64(gapply_y(m, p))
    &&& in_i64(gapply_z(m, p))
}

/// An immutable affine 4x4 transform with fixed-point entries; the last row
/// is the constant (0, 0, 0, 1) and is not stored.
#[derive(Clone, Copy, PartialEq, Eq, Structural, Debug)]
pub struct Mat4 {
    pub m00: i64,
    pub m01: i64,
    pub m02: i64,
    pub m03: i64,
    pub m10: i64,
    pub m11: i64,
    pub m12: i64,
    pub m13: i64,
    pub m20: i64,
    pub m21: i64,
    pub m22: i64,
    pub m23: i64,
}

/// Truncating division of a 128-bit value by `SCALE`.
fn div_scale(n: i128) -> (r: i128)
    ensures
        r == tdiv(n as int, SCALE as int),
{
    proof {
        if n >= 0 {
            vstd::arithmetic::div_mod::lemma_div_pos_is_pos(n as int, SCALE as int);
            vstd::arithmetic::div_mod::lemma_div_nonincreasing(n as int, SCALE as int);
        } else {
            vstd::arithmetic::div_mod::lemma_div_pos_is_pos(-(n as int), SCALE as int);
            vstd::arithmetic::div_mod::lemma_div_nonincreasing(-(n as int), SCALE as int);
        }
    }
    match n.checked_div(SCALE as i128) {
        Some(q) => q,
        None => 0,
    }
}

/// The sum of three products of range-bounded factors, computed exactly in
/// 128-bit arithmetic.
fn dot3(a0: i64, a1: i64, a2: i64, b0: i64, b1: i64, b2: i64) -> (r: i128)
    requires
        -ENTRY_MAX <= a0 <= ENTRY_MAX,
        -ENTRY_MAX <= a1 <= ENTRY_MAX,
        -ENTRY_MAX <= a2 <= ENTRY_MAX,
        -ENTRY_MAX <= b0 <= ENTRY_MAX,
        -ENTRY_MAX <= b1 <= ENTRY_MAX,
        -ENTRY_MAX <= b2 <= ENTRY_MAX,
    ensures
        r == a0 * b0 + a1 * b1 + a2 * b2,
        -3 * (ENTRY_MAX as int) * (ENTRY_MAX as int) <= r <= 3 * (ENTRY_MAX as int) * (
        ENTRY_MAX as int),
{
    proof {
        lemma_mul_bound(a0 as int, b0 as int, ENTRY_MAX as int, ENTRY_MAX as int);
        lemma_mul_bound(a1 as int, b1 as int, ENTRY_MAX as int, ENTRY_MAX as int);
        lemma_mul_bound(a2 as int, b2 as int, ENTRY_MAX as int, ENTRY_MAX as int);
    }
    (a0 as i128) * (b0 as i128) + (a1 as i128) * (b1 as i128) + (a2 as i128) * (b2 as i128)
}

impl Mat4 {
    /// The mathematical value of the matrix.
    pub open spec fn model(self) -> GMat {
        GMat {
            e00: self.m00 as int,
            e01: self.m01 as int,
            e02: self.m02 as int,
            e03: self.m03 as int,
            e10: self.m10 as int,
            e11: self.m11 as int,
            e12: self.m12 as int,
            e13: self.m13 as int,
            e20: self.m20 as int,
            e21: self.m21 as int,
            e22: self.m22 as int,
            e23: self.m23 as int,
        }
    }

    /// Every entry lies within the working range.
    pub open spec fn wf(self) -> bool {
        gmat_in_range(self.model())
    }

    /// Reports whether every entry lies within the working range.
    pub fn check_wf(&self) -> (b: bool)
        ensures
            b == self.wf(),
    {
        -ENTRY_MAX <= self.m00 && self.m00 <= ENTRY_MAX && -ENTRY_MAX <= self.m01 && self.m01
            <= ENTRY_MAX && -ENTRY_MAX <= self.m02 && self.m02 <= ENTRY_MAX && -ENTRY_MAX
            <= self.m03 && self.m03 <= ENTRY_MAX && -ENTRY_MAX <= self.m10 && self.m10 <= ENTRY_MAX
            && -ENTRY_MAX <= self.m11 && self.m11 <= ENTRY_MAX && -ENTRY_MAX <= self.m12
            && self.m12 <= ENTRY_MAX && -ENTRY_MAX <= self.m13 && self.m13 <= ENTRY_MAX
            && -ENTRY_MAX <= self.m20 && self.m20 <= ENTRY_MAX && -ENTRY_MAX <= self.m21
            && self.m21 <= ENTRY_MAX && -ENTRY_MAX <= self.m22 && self.m22 <= ENTRY_MAX
            && -ENTRY_MAX <= self.m23 && self.m23 <= ENTRY_MAX
    }

    /// The identity transform.
    pub fn identity() -> (r: Mat4)
        ensures
            r.model() == gidentity(),
            r.wf(),
    {
        Mat4 {
            m00: SCALE,
            m01: 0,
            m02: 0,
            m03: 0,
            m10: 0,
            m11: SCALE,
            m12: 0,
            m13: 0,
            m20: 0,
            m21: 0,
            m22: SCALE,
            m23: 0,
        }
    }

    /// Uniform scaling by the fixed-point factor `f`.
    pub fn scaling(f: i64) -> (r: Mat4)
        requires
            -ENTRY_MAX <= f <= ENTRY_MAX,
        ensures
            r.model() == gscaling(f as int),
            r.wf(),
    {
        Mat4 {
            m00: f,
            m01: 0,
            m02: 0,
            m03: 0,
            m10: 0,
            m11: f,
            m12: 0,
            m13: 0,
            m20: 0,
            m21: 0,
            m22: f,
            m23: 0,
        }
    }

    /// Translation by the fixed-point vector `v`.
    pub fn translation(v: Point3) -> (r: Mat4)
        requires
            v.in_range(),
        ensures
            r.model() == gtranslation(v.x as int, v.y as int, v.z as int),
            r.wf(),
    {
        Mat4 {
            m00: SCALE,
            m01: 0,
            m02: 0,
            m03: v.x,
            m10: 0,
            m11: SCALE,
            m12: 0,
            m13: v.y,
            m20: 0,
            m21: 0,
            m22: SCALE,
            m23: v.z,
        }
    }

    /// Rotation about the y axis from the fixed-point cosine and sine of the
    /// angle.
    pub fn rot_y(c: i64, s: i64) -> (r: Mat4)
        requires
            -SCALE <= c <= SCALE,
            -SCALE <= s <= SCALE,
        ensures
            r.model() == grot_y(c as int, s as int),
            r.wf(),
    {
        Mat4 {
            m00: c,
            m01: 0,
            m02: s,
            m03: 0,
            m10: 0,
            m11: SCALE,
            m12: 0,
            m13: 0,
            m20: -s,
            m21: 0,
            m22: c,
            m23: 0,
        }
    }

    /// Rotation about the z axis from the fixed-point cosine and sine of the
    /// angle.
    pub fn rot_z(c: i64, s: i64) -> (r: Mat4)
        requires
            -SCALE <= c <= SCALE,
            -SCALE <= s <= SCALE,
        ensures
            r.model() == grot_z(c as int, s as int),
            r.wf(),
    {
        Mat4 {
            m00: c,
            m01: -s,
            m02: 0,
            m03: 0,
            m10: s,
            m11: c,
            m12: 0,
            m13: 0,
            m20: 0,
            m21: 0,
            m22: SCALE,
            m23: 0,
        }
    }

    /// Matrix multiplication `self * other`: the resulting transform applies
    /// `other` first and `self` second.  Returns `None` exactly when an input
    /// is outside the working range or an entry of the product would be.
    pub fn compose(&self, other: &Mat4) -> (r: Option<Mat4>)
        ensures
            match r {
                Some(m) => {
                    &&& self.wf()
                    &&& other.wf()
                    &&& gmat_in_range(gmul(self.model(), other.model()))
                    &&& m.model() == gmul(self.model(), other.model())
                    &&& m.wf()
                },
                None => !(self.wf() && other.wf() && gmat_in_range(
                    gmul(self.model(), other.model()),
                )),
            },
    {
        if !(self.check_wf() && other.check_wf()) {
            return None;
        }
        let e00: i128 = div_scale(dot3(self.m00, self.m01, self.m02, other.m00, other.m10, other.m20));
        let e01: i128 = div_scale(dot3(self.m00, self.m01, self.m02, other.m01, other.m11, other.m21));
        let e02: i128 = div_scale(dot3(self.m00, self.m01, self.m02, other.m02, other.m12, other.m22));
        let e03: i128 = div_scale(dot3(self.m00, self.m01, self.m02, other.m03, other.m13, other.m23))
            + self.m03 as i128;
        let e10: i128 = div_scale(dot3(self.m10, self.m11, self.m12, other.m00, other.m10, other.m20));
        let e11: i128 = div_scale(dot3(self.m10, self.m11, self.m12, other.m01, other.m11, other.m21));
        let e12: i128 = div_scale(dot3(self.m10, self.m11, self.m12, other.m02, other.m12, other.m22));
        let e13: i128 = div_scale(dot3(self.m10, self.m11, self.m12, other.m03, other.m13, other.m23))
            + self.m13 as i128;
        let e20: i128 = div_scale(dot3(self.m20, self.m21, self.m22, other.m00, other.m10, other.m20));
        let e21: i128 = div_scale(dot3(self.m20, self.m21, self.m22, other.m01, other.m11, other.m21));
        let e22: i128 = div_scale(dot3(self.m20, self.m21, self.m22, other.m02, other.m12, other.m22));
        let e23: i128 = div_scale(dot3(self.m20, self.m21, self.m22, other.m03, other.m13, other.m23))
            + self.m23 as i128;
        let lim: i128 = ENTRY_MAX as i128;
        if -lim <= e00 && e00 <= lim && -lim <= e01 && e01 <= lim && -lim <= e02 && e02 <= lim
            && -lim <= e03 && e03 <= lim && -lim <= e10 && e10 <= lim && -lim <= e11 && e11 <= lim
            && -lim <= e12 && e12 <= lim && -lim <= e13 && e13 <= lim && -lim <= e20 && e20 <= lim
            && -lim <= e21 && e21 <= lim && -lim <= e22 && e22 <= lim && -lim <= e23 && e23
            <= lim {
            Some(
                Mat4 {
                    m00: e00 as i64,
                    m01: e01 as i64,
                    m02: e02 as i64,
                    m03: e03 as i64,
                    m10: e10 as i64,
                    m11: e11 as i64,
                    m12: e12 as i64,
                    m13: e13 as i64,
                    m20: e20 as i64,
                    m21: e21 as i64,
                    m22: e22 as i64,
                    m23: e23 as i64,
                },
            )
        } else {
            None
        }
    }

    /// Applies the transform to a point, yielding the transformed fixed-point
    /// coordinates.  Fails with `NumericOverflow` exactly when an input is
    /// outside the working range or a transformed coordinate cannot be
    /// represented.
    pub fn transform_point(&self, p: Point3) -> (r: Result<Point3, RenderError>)
        ensures
            match r {
                Ok(q) => {
                    &&& self.wf()
                    &&& p.in_range()
                    &&& apply_fits(self.model(), p)
                    &&& q.x == gapply_x(self.model(), p)
                    &&& q.y == gapply_y(self.model(), p)
                    &&& q.z == gapply_z(self.model(), p)
                },
                Err(e) => {
                    &&& e == RenderError::NumericOverflow
                    &&& !(self.wf() && p.in_range() && apply_fits(self.model(), p))
                },
            },
    {
        if !(self.check_wf() && p.check_range()) {
            return Err(RenderError::NumericOverflow);
        }
        let dx: i128 = dot3(self.m00, self.m01, self.m02, p.x, p.y, p.z);
        let dy: i128 = dot3(self.m10, self.m11, self.m12, p.x, p.y, p.z);
        let dz: i128 = dot3(self.m20, self.m21, self.m22, p.x, p.y, p.z);
        proof {
            let bound = 3 * (ENTRY_MAX as int) * (ENTRY_MAX as int);
            lemma_tdiv_bound(dx as int, SCALE as int, bound);
            lemma_tdiv_bound(dy as int, SCALE as int, bound);
            lemma_tdiv_bound(dz as int, SCALE as int, bound);
        }
        let tx: i128 = div_scale(dx) + self.m03 as i128;
        let ty: i128 = div_scale(dy) + self.m13 as i128;
        let tz: i128 = div_scale(dz) + self.m23 as i128;
        let lo: i128 = i64::MIN as i128;
        let hi: i128 = i64::MAX as i128;
        if lo <= tx && tx <= hi && lo <= ty && ty <= hi && lo <= tz && tz <= hi {
            Ok(Point3 { x: tx as i64, y: ty as i64, z: tz as i64 })
        } else {
            Err(RenderError::NumericOverflow)
        }
    }
}

/// Converts a transformed fixed-point point to the integer pixel coordinate
/// used for drawing: both coordinates are truncated toward zero; the z
/// coordinate is discarded.  Fails with `NumericOverflow` exactly when a
/// truncated coordinate does not fit a 32-bit pixel coordinate.
pub fn to_pixel(p: Point3) -> (r: Result<Pixel, RenderError>)
    ensures
        match r {
            Ok(px) => {
                &&& px.x == tdiv(p.x as int, SCALE as int)
                &&& px.y == tdiv(p.y as int, SCALE as int)
                &&& in_i32(tdiv(p.x as int, SCALE as int))
                &&& in_i32(tdiv(p.y as int, SCALE as int))
            },
            Err(e) => {
                &&& e == RenderError::NumericOverflow
                &&& !(in_i32(tdiv(p.x as int, SCALE as int)) && in_i32(
                    tdiv(p.y as int, SCALE as int),
                ))
            },
        },
{
    let qx: i128 = div_scale(p.x as i128);
    let qy: i128 = div_scale(p.y as i128);
    let lo: i128 = i32::MIN as i128;
    let hi: i128 = i32::MAX as i128;
    if lo <= qx && qx <= hi && lo <= qy && qy <= hi {
        Ok(Pixel { x: qx as i32, y: qy as i32 })
    } else {
        Err(RenderError::NumericOverflow)
    }
}

/// The pixel a point projects to under a transform, or `None` when a value
/// along the way leaves the representable range and the segment owning the
/// point must be skipped for the frame.
pub open spec fn spec_project(m: Mat4, p: Point3) -> Option<Pixel> {
    if m.wf() && p.in_range() && apply_fits(m.model(), p) {
        let px = tdiv(gapply_x(m.model(), p), SCALE as int);
        let py = tdiv(gapply_y(m.model(), p), SCALE as int);
        if in_i32(px) && in_i32(py) {
            Some(Pixel { x: px as i32, y: py as i32 })
        } else {
            None
        }
    } else {
        None
    }
}

impl Mat4 {
    /// Applies the transform to a point and truncates the result to the
    /// integer pixel coordinate used for drawing.  Fails with
    /// `NumericOverflow` exactly when `spec_project` has no pixel for the
    /// point.
    pub fn project(&self, p: Point3) -> (r: Result<Pixel, RenderError>)
        ensures
            match r {
                Ok(px) => spec_project(*self, p) == Some(px),
                Err(e) => {
                    &&& e == RenderError::NumericOverflow
                    &&& spec_project(*self, p) is None
                },
            },
    {
        match self.transform_point(p) {
            Ok(q) => to_pixel(q),
            Err(e) => Err(e),
        }
    }
}

/// Largest magnitude accepted for a translation target when composing one of
/// the two stock transforms; generous for any canvas.
pub const CENTER_MAX: i64 = 0x4000_0000;

/// Largest magnitude accepted for the fixed-point scale factor of the
/// spinning transform.
pub const FACTOR_MAX: i64 = 1000 * SCALE;

/// The nine linear entries of `g` are bounded by `lb` and the three
/// translation entries by `tb`.
pub open spec fn gmat_bounded(g: GMat, lb: int, tb: int) -> bool {
    &&& -lb <= g.e00 <= lb
    &&& -lb <= g.e01 <= lb
    &&& -lb <= g.e02 <= lb
    &&& -tb <= g.e03 <= tb
    &&& -lb <= g.e10 <= lb
    &&& -lb <= g.e11 <= lb
    &&& -lb <= g.e12 <= lb
    &&& -tb <= g.e13 <= tb
    &&& -lb <= g.e20 <= lb
    &&& -lb <= g.e21 <= lb
    &&& -lb <= g.e22 <= lb
    &&& -tb <= g.e23 <= tb
}

/// Bounds on a row and a column bound the truncated dot product.
proof fn lemma_dot_tdiv_bound(
    a0: int,
    a1: int,
    a2: int,
    b0: int,
    b1: int,
    b2: int,
    ba: int,
    bb: int,
)
    requires
        0 <= ba,
        0 <= bb,
        -ba <= a0 <= ba,
        -ba <= a1 <= ba,
        -ba <= a2 <= ba,
        -bb <= b0 <= bb,
        -bb <= b1 <= bb,
        -bb <= b2 <= bb,
    ensures
        -(3 * ba * bb / (SCALE as int)) <= tdiv(a0 * b0 + a1 * b1 + a2 * b2, SCALE as int) <= 3
            * ba * bb / (SCALE as int),
{
    lemma_mul_bound(a0, b0, ba, bb);
    lemma_mul_bound(a1, b1, ba, bb);
    lemma_mul_bound(a2, b2, ba, bb);
    assert(0 <= ba * bb && 3 * ba * bb == 3 * (ba * bb)) by (nonlinear_arith)
        requires
            0 <= ba,
            0 <= bb,
    ;
    lemma_tdiv_bound(a0 * b0 + a1 * b1 + a2 * b2, SCALE as int, 3 * ba * bb);
}

/// Entry bounds of two transforms carry to their product: the linear entries
/// of `gmul(a, b)` stay within `3*la*lb/SCALE` and the translation entries
/// within `3*la*tb/SCALE + ta`.
pub proof fn lemma_gmul_bounded(a: GMat, b: GMat, la: int, ta: int, lb: int, tb: int)
    requires
        0 <= la,
        0 <= ta,
        0 <= lb,
        0 <= tb,
        gmat_bounded(a, la, ta),
        gmat_bounded(b, lb, tb),
    ensures
        gmat_bounded(
            gmul(a, b),
            3 * la * lb / (SCALE as int),
            3 * la * tb / (SCALE as int) + ta,
        ),
{
    lemma_dot_tdiv_bound(a.e00, a.e01, a.e02, b.e00, b.e10, b.e20, la, lb);
    lemma_dot_tdiv_bound(a.e00, a.e01, a.e02, b.e01, b.e11, b.e21, la, lb);
    lemma_dot_tdiv_bound(a.e00, a.e01, a.e02, b.e02, b.e12, b.e22, la, lb);
    lemma_dot_tdiv_bound(a.e00, a.e01, a.e02, b.e03, b.e13, b.e23, la, tb);
    lemma_dot_tdiv_bound(a.e10, a.e11, a.e12, b.e00, b.e10, b.e20, la, lb);
    lemma_dot_tdiv_bound(a.e10, a.e11, a.e12, b.e01, b.e11, b.e21, la, lb);
    lemma_dot_tdiv_bound(a.e10, a.e11, a.e12, b.e02, b.e12, b.e22, la, lb);
    lemma_dot_tdiv_bound(a.e10, a.e11, a.e12, b.e03, b.e13, b.e23, la, tb);
    lemma_dot_tdiv_bound(a.e20, a.e21, a.e22, b.e00, b.e10, b.e20, la, lb);
    lemma_dot_tdiv_bound(a.e20, a.e21, a.e22, b.e01, b.e11, b.e21, la, lb);
    lemma_dot_tdiv_bound(a.e20, a.e21, a.e22, b.e02, b.e12, b.e22, la, lb);
    lemma_dot_tdiv_bound(a.e20, a.e21, a.e22, b.e03, b.e13, b.e23, la, tb);
}

/// The spinning transform of the mesh variant: scale the model, flip it
/// about the z axis, spin it about the y axis, then translate it to the
/// canvas center.  `(cy, sy)` and `(cz, sz)` are the fixed-point cosine and
/// sine of the spin and flip angles.
pub open spec fn gspin(cy: int, sy: int, cz: int, sz: int, f: int, c: Point3) -> GMat {
    gmul(
        gmul(
            gmul(gtranslation(c.x as int, c.y as int, c.z as int), grot_y(cy, sy)),
            grot_z(cz, sz),
        ),
        gscaling(f),
    )
}

/// Every partial product of the spinning transform stays representable.
pub open spec fn spin_fits(cy: int, sy: int, cz: int, sz: int, f: int, c: Point3) -> bool {
    let m1 = gmul(gtranslation(c.x as int, c.y as int, c.z as int), grot_y(cy, sy));
    let m2 = gmul(m1, grot_z(cz, sz));
    let m3 = gmul(m2, gscaling(f));
    gmat_in_range(m1) && gmat_in_range(m2) && gmat_in_range(m3)
}

/// The rotating-rectangle transform: move the shape's own center to the
/// origin, rotate about the y axis, then translate to the canvas center, so
/// the rotation pivots about the shape's center.
pub open spec fn grect(c: int, s: int, canvas_center: Point3, shape_center: Point3) -> GMat {
    gmul(
        gmul(
            gtranslation(canvas_center.x as int, canvas_center.y as int, canvas_center.z as int),
            grot_y(c, s),
        ),
        gtranslation(-shape_center.x as int, -shape_center.y as int, -shape_center.z as int),
    )
}

/// Every partial product of the rotating-rectangle transform stays
/// representable.
pub open spec fn rect_fits(c: int, s: int, canvas_center: Point3, shape_center: Point3) -> bool {
    let m1 = gmul(
        gtranslation(canvas_center.x as int, canvas_center.y as int, canvas_center.z as int),
        grot_y(c, s),
    );
    let m2 = gmul(
        m1,
        gtranslation(-shape_center.x as int, -shape_center.y as int, -shape_center.z as int),
    );
    gmat_in_range(m1) && gmat_in_range(m2)
}

/// Composes the spinning transform `Translate(center) * RotY(cy, sy)
/// * RotZ(cz, sz) * Scale(f)`, multiplying left to right as the frame loop
/// does.  Returns `None` exactly when a partial product leaves the working
/// range; `lemma_spin_fits` shows this cannot happen for parameters within
/// the stock bounds.
pub fn spinning_transform(cy: i64, sy: i64, cz: i64, sz: i64, f: i64, center: Point3) -> (r:
    Option<Mat4>)
    requires
        -SCALE <= cy <= SCALE,
        -SCALE <= sy <= SCALE,
        -SCALE <= cz <= SCALE,
        -SCALE <= sz <= SCALE,
        -ENTRY_MAX <= f <= ENTRY_MAX,
        center.in_range(),
    ensures
        match r {
            Some(m) => {
                &&& m.model() == gspin(cy as int, sy as int, cz as int, sz as int, f as int, center)
                &&& m.wf()
                &&& spin_fits(cy as int, sy as int, cz as int, sz as int, f as int, center)
            },
            None => !spin_fits(cy as int, sy as int, cz as int, sz as int, f as int, center),
        },
{
    let t = Mat4::translation(center);
    let ry = Mat4::rot_y(cy, sy);
    let rz = Mat4::rot_z(cz, sz);
    let sc = Mat4::scaling(f);
    match t.compose(&ry) {
        Some(m1) => match m1.compose(&rz) {
            Some(m2) => m2.compose(&sc),
            None => None,
        },
        None => None,
    }
}

/// Composes the rotating-rectangle transform `Translate(canvas_center)
/// * RotY(c, s) * Translate(-shape_center)`.  Returns `None` exactly when a
/// partial product leaves the working range; `lemma_rect_fits` shows this
/// cannot happen for centers within the stock bounds.
pub fn rect_transform(c: i64, s: i64, canvas_center: Point3, shape_center: Point3) -> (r: Option<
    Mat4>)
    requires
        -SCALE <= c <= SCALE,
        -SCALE <= s <= SCALE,
        canvas_center.in_range(),
        shape_center.in_range(),
    ensures
        match r {
            Some(m) => {
                &&& m.model() == grect(c as int, s as int, canvas_center, shape_center)
                &&& m.wf()
                &&& rect_fits(c as int, s as int, canvas_center, shape_center)
            },
            None => !rect_fits(c as int, s as int, canvas_center, shape_center),
        },
{
    let t = Mat4::translation(canvas_center);
    let ry = Mat4::rot_y(c, s);
    let back = Mat4::translation(
        Point3 { x: -shape_center.x, y: -shape_center.y, z: -shape_center.z },
    );
    match t.compose(&ry) {
        Some(m1) => m1.compose(&back),
        None => None,
    }
}

/// The spinning transform is representable whenever the rotation parameters
/// are genuine fixed-point cosines and sines, the scale factor is within
/// `FACTOR_MAX` and the translation target within `CENTER_MAX`.
pub proof fn lemma_spin_fits(cy: int, sy: int, cz: int, sz: int, f: int, c: Point3)
    requires
        -SCALE <= cy <= SCALE,
        -SCALE <= sy <= SCALE,
        -SCALE <= cz <= SCALE,
        -SCALE <= sz <= SCALE,
        -FACTOR_MAX <= f <= FACTOR_MAX,
        -CENTER_MAX <= c.x <= CENTER_MAX,
        -CENTER_MAX <= c.y <= CENTER_MAX,
        -CENTER_MAX <= c.z <= CENTER_MAX,
    ensures
        spin_fits(cy, sy, cz, sz, f, c),
{
    let s = SCALE as int;
    let cm = CENTER_MAX as int;
    let t = gtranslation(c.x as int, c.y as int, c.z as int);
    let m1 = gmul(t, grot_y(cy, sy));
    let m2 = gmul(m1, grot_z(cz, sz));
    let m3 = gmul(m2, gscaling(f));
    lemma_gmul_bounded(t, grot_y(cy, sy), s, cm, s, 0);
    lemma_gmul_bounded(m1, grot_z(cz, sz), 3 * s * s / s, cm, s, 0);
    lemma_gmul_bounded(m2, gscaling(f), 3 * (3 * s * s / s) * s / s, cm, FACTOR_MAX as int, 0);
}

/// The rotating-rectangle transform is representable whenever the rotation
/// parameters are genuine fixed-point cosines and sines and both centers are
/// within `CENTER_MAX`.
pub proof fn lemma_rect_fits(c: int, s: int, canvas_center: Point3, shape_center: Point3)
    requires
        -SCALE <= c <= SCALE,
        -SCALE <= s <= SCALE,
        -CENTER_MAX <= canvas_center.x <= CENTER_MAX,
        -CENTER_MAX <= canvas_center.y <= CENTER_MAX,
        -CENTER_MAX <= canvas_center.z <= CENTER_MAX,
        -CENTER_MAX <= shape_center.x <= CENTER_MAX,
        -CENTER_MAX <= shape_center.y <= CENTER_MAX,
        -CENTER_MAX <= shape_center.z <= CENTER_MAX,
    ensures
        rect_fits(c, s, canvas_center, shape_center),
{
    let sc = SCALE as int;
    let cm = CENTER_MAX as int;
    let t = gtranslation(
        canvas_center.x as int,
        canvas_center.y as int,
        canvas_center.z as int,
    );
    let back = gtranslation(
        -shape_center.x as int,
        -shape_center.y as int,
        -shape_center.z as int,
    );
    let m1 = gmul(t, grot_y(c, s));
    lemma_gmul_bounded(t, grot_y(c, s), sc, cm, sc, 0);
    lemma_gmul_bounded(m1, back, 3 * sc * sc / sc, cm, sc, cm);
}

/// At angle zero the rotating-rectangle transform is exactly the translation
/// that carries the shape's center onto the canvas center: applied to any
/// point it adds the fixed offset `canvas_center - shape_center`.
pub proof fn lemma_rect_identity_at_zero(canvas_center: Point3, shape_center: Point3, p: Point3)
    ensures
        gapply_x(grect(SCALE as int, 0, canvas_center, shape_center), p) == p.x + canvas_center.x
            - shape_center.x,
        gapply_y(grect(SCALE as int, 0, canvas_center, shape_center), p) == p.y + canvas_center.y
            - shape_center.y,
        gapply_z(grect(SCALE as int, 0, canvas_center, shape_center), p) == p.z + canvas_center.z
            - shape_center.z,
{
    let s = SCALE as int;
    let t = gtranslation(
        canvas_center.x as int,
        canvas_center.y as int,
        canvas_center.z as int,
    );
    let ry0 = grot_y(s, 0);
    let back = gtranslation(
        -shape_center.x as int,
        -shape_center.y as int,
        -shape_center.z as int,
    );
    let off = gtranslation(
        canvas_center.x - shape_center.x,
        canvas_center.y - shape_center.y,
        canvas_center.z - shape_center.z,
    );
    lemma_tdiv_exact(s, s);
    lemma_tdiv_exact(0, s);
    lemma_tdiv_exact(-shape_center.x as int, s);
    lemma_tdiv_exact(-shape_center.y as int, s);
    lemma_tdiv_exact(-shape_center.z as int, s);
    assert(s * s == (SCALE as int) * (SCALE as int));
    assert(gmul(t, ry0) == t);
    assert(gmul(gmul(t, ry0), back) == gmul(t, back));
    assert(gmul(t, back) == off);
    assert(grect(s, 0, canvas_center, shape_center) == off);
    lemma_tdiv_exact(p.x as int, s);
    lemma_tdiv_exact(p.y as int, s);
    lemma_tdiv_exact(p.z as int, s);
    assert(s * p.x == p.x * s && s * p.y == p.y * s && s * p.z == p.z * s) by (nonlinear_arith);
    assert(tdiv(s * p.x, s) == p.x);
    assert(tdiv(s * p.y, s) == p.y);
    assert(tdiv(s * p.z, s) == p.z);
    assert(gapply_x(off, p) == p.x + canvas_center.x - shape_center.x);
    assert(gapply_y(off, p) == p.y + canvas_center.y - shape_center.y);
    assert(gapply_z(off, p) == p.z + canvas_center.z - shape_center.z);
}

/// Degrees the spinning variant turns per second.
pub const SPIN_RATE_DEG: u64 = 90;

/// One full turn in nanodegrees.
pub const FULL_TURN_NANODEG: u64 = 360_000_000_000;

/// Nanoseconds after which the spin angle repeats: 360 degrees divided by
/// the rate, in nanoseconds.
pub const SPIN_PERIOD_NANOS: u64 = 4_000_000_000;

/// The unreduced spin angle after `t` nanoseconds, in nanodegrees: the angle
/// in degrees is the rate times the elapsed seconds.
pub open spec fn spec_spin_angle(t_nanos: int) -> int {
    SPIN_RATE_DEG * t_nanos
}

/// The spin angle after `t_nanos` nanoseconds, reduced to one full turn, in
/// nanodegrees.
pub fn spin_angle_nanodeg(t_nanos: u64) -> (r: u64)
    ensures
        r == spec_spin_angle(t_nanos as int) % (FULL_TURN_NANODEG as int),
        r < FULL_TURN_NANODEG,
{
    let wide: u128 = (SPIN_RATE_DEG as u128) * (t_nanos as u128);
    (wide % (FULL_TURN_NANODEG as u128)) as u64
}

/// One spin period later the angle is the same modulo a full turn:
/// `angle(t + 360/rate) == angle(t) (mod 360 degrees)`.  The frame loop
/// derives its rotation from the reduced angle, so the composed transform
/// and every projected pixel repeat with the same period.
pub proof fn lemma_spin_angle_periodic(t_nanos: int)
    ensures
        spec_spin_angle(t_nanos + SPIN_PERIOD_NANOS) % (FULL_TURN_NANODEG as int)
            == spec_spin_angle(t_nanos) % (FULL_TURN_NANODEG as int),
{
    vstd::arithmetic::div_mod::lemma_mod_add_multiples_vanish(
        SPIN_RATE_DEG * t_nanos,
        FULL_TURN_NANODEG as int,
    );
}

} // verus!
